//! A module namespace: names bound to text, no name bound twice.

use vstd::prelude::*;

verus! {

/// One entry of a namespace: a name and the text bound to it.
#[derive(Debug)]
struct Binding {
    name: String,
    value: String,
}

/// The map that a sequence of bindings denotes: each binding maps its name
/// to its text. Of two bindings with one name the later would count; a
/// namespace holds no such two.
spec fn bindings_map(s: Seq<Binding>) -> Map<Seq<char>, Seq<char>>
    decreases s.len(),
{
    if s.len() == 0 {
        Map::empty()
    } else {
        bindings_map(s.drop_last()).insert(s.last().name@, s.last().value@)
    }
}

/// No two bindings of `s` carry the same name.
spec fn distinct_names(s: Seq<Binding>) -> bool {
    forall|i: int, j: int| 0 <= i < j < s.len() ==> s[i].name@ != s[j].name@
}

/// A name is in the domain of `bindings_map(s)` exactly when a binding of
/// `s` carries it; the domain is finite.
proof fn lemma_bindings_map_domain(s: Seq<Binding>)
    ensures
        bindings_map(s).dom().finite(),
        forall|k: Seq<char>|
            bindings_map(s).contains_key(k) <==> exists|i: int|
                0 <= i < s.len() && #[trigger] s[i].name@ == k,
    decreases s.len(),
{
    if s.len() > 0 {
        let front = s.drop_last();
        lemma_bindings_map_domain(front);
        assert forall|k: Seq<char>|
            bindings_map(s).contains_key(k) <==> exists|i: int|
                0 <= i < s.len() && #[trigger] s[i].name@ == k by {
            if bindings_map(s).contains_key(k) {
                if k == s.last().name@ {
                    assert(s[s.len() - 1].name@ == k);
                } else {
                    let i = choose|i: int| 0 <= i < front.len() && #[trigger] front[i].name@ == k;
                    assert(s[i].name@ == k);
                }
            }
            if exists|i: int| 0 <= i < s.len() && #[trigger] s[i].name@ == k {
                let i = choose|i: int| 0 <= i < s.len() && #[trigger] s[i].name@ == k;
                if i < s.len() - 1 {
                    assert(front[i].name@ == k);
                }
            }
        }
    }
}

/// Names that are distinct in `s` are distinct in `s` without its last
/// binding.
proof fn lemma_distinct_front(s: Seq<Binding>)
    requires
        distinct_names(s),
        s.len() > 0,
    ensures
        distinct_names(s.drop_last()),
{
    let front = s.drop_last();
    assert forall|a: int, b: int| 0 <= a < b < front.len() implies front[a].name@
        != front[b].name@ by {
        assert(s[a].name@ != s[b].name@);
    }
}

/// With distinct names, each binding of `s` is a pair of `bindings_map(s)`.
proof fn lemma_bindings_map_lookup(s: Seq<Binding>, i: int)
    requires
        distinct_names(s),
        0 <= i < s.len(),
    ensures
        bindings_map(s).contains_pair(s[i].name@, s[i].value@),
    decreases s.len(),
{
    if i < s.len() - 1 {
        let front = s.drop_last();
        lemma_distinct_front(s);
        lemma_bindings_map_lookup(front, i);
        assert(front[i] == s[i]);
        assert(s[i].name@ != s[s.len() - 1].name@);
    }
}

/// With distinct names, `bindings_map(s)` has as many entries as `s`.
proof fn lemma_bindings_map_len(s: Seq<Binding>)
    requires
        distinct_names(s),
    ensures
        bindings_map(s).dom().finite(),
        bindings_map(s).len() == s.len(),
    decreases s.len(),
{
    lemma_bindings_map_domain(s);
    if s.len() > 0 {
        let front = s.drop_last();
        lemma_distinct_front(s);
        lemma_bindings_map_len(front);
        lemma_bindings_map_domain(front);
        assert(!bindings_map(front).contains_key(s.last().name@)) by {
            if bindings_map(front).contains_key(s.last().name@) {
                let i = choose|i: int|
                    0 <= i < front.len() && #[trigger] front[i].name@ == s.last().name@;
                assert(s[i].name@ != s[s.len() - 1].name@);
            }
        }
    }
}

/// A set of bindings in which no name is bound twice. Its view is the map
/// from each bound name to its text.
#[derive(Debug)]
pub struct Namespace {
    entries: Vec<Binding>,
}

impl View for Namespace {
    type V = Map<Seq<char>, Seq<char>>;

    /// The namespace as a map from names to text.
    closed spec fn view(&self) -> Map<Seq<char>, Seq<char>> {
        bindings_map(self.entries@)
    }
}

impl Namespace {
    #[verifier::type_invariant]
    spec fn names_are_distinct(self) -> bool {
        distinct_names(self.entries@)
    }

    /// The empty namespace.
    pub fn new() -> (ns: Namespace)
        ensures
            ns@ == Map::<Seq<char>, Seq<char>>::empty(),
    {
        Namespace { entries: Vec::new() }
    }

    /// The number of bindings. A namespace is a finite map.
    pub fn len(&self) -> (n: usize)
        ensures
            self@.dom().finite(),
            n == self@.len(),
    {
        proof {
            use_type_invariant(self);
            lemma_bindings_map_len(self.entries@);
        }
        self.entries.len()
    }

    /// Where `name` stands among the entries, if it is bound.
    fn position(&self, name: &str) -> (at: Option<usize>)
        ensures
            match at {
                Some(i) => i < self.entries@.len() && self.entries@[i as int].name@ == name@,
                None => forall|i: int|
                    0 <= i < self.entries@.len() ==> self.entries@[i].name@ != name@,
            },
    {
        let wanted = name.to_owned();
        let mut i: usize = 0;
        while i < self.entries.len()
            invariant
                i <= self.entries@.len(),
                wanted@ == name@,
                forall|j: int| 0 <= j < i ==> self.entries@[j].name@ != name@,
            decreases self.entries@.len() - i,
        {
            if self.entries[i].name == wanted {
                return Some(i);
            }
            i += 1;
        }
        None
    }

    /// Whether `name` is bound.
    pub fn contains_key(&self, name: &str) -> (bound: bool)
        ensures
            bound == self@.contains_key(name@),
    {
        proof {
            lemma_bindings_map_domain(self.entries@);
        }
        self.position(name).is_some()
    }

    /// The text bound to `name`, if `name` is bound.
    pub fn get(&self, name: &str) -> (text: Option<&str>)
        ensures
            match text {
                Some(t) => self@.contains_key(name@) && t@ == self@[name@],
                None => !self@.contains_key(name@),
            },
    {
        proof {
            use_type_invariant(self);
            lemma_bindings_map_domain(self.entries@);
        }
        match self.position(name) {
            Some(i) => {
                proof {
                    lemma_bindings_map_lookup(self.entries@, i as int);
                }
                Some(self.entries[i].value.as_str())
            },
            None => None,
        }
    }

    /// Binds `name` to `value` unless `name` is bound already. Returns
    /// whether the binding was made; a refused binding changes nothing.
    pub fn insert(&mut self, name: &str, value: &str) -> (added: bool)
        ensures
            added == !old(self)@.contains_key(name@),
            added ==> final(self)@ == old(self)@.insert(name@, value@),
            !added ==> *final(self) == *old(self),
    {
        proof {
            use_type_invariant(&*self);
            lemma_bindings_map_domain(self.entries@);
        }
        if self.position(name).is_some() {
            return false;
        }
        let binding = Binding { name: name.to_owned(), value: value.to_owned() };
        // The entries leave the namespace while they grow, so that every
        // namespace in sight has distinct names at every step.
        let mut taken = Namespace::new();
        core::mem::swap(self, &mut taken);
        let mut entries = taken.entries;
        let ghost before = entries@;
        entries.push(binding);
        proof {
            assert(entries@.drop_last() == before);
        }
        *self = Namespace { entries };
        true
    }
}

} // verus!
