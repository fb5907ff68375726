//! The initialization routine of the module, and what holds of a load.

use crate::error::InitError;
use crate::handle::ModuleHandle;
use crate::namespace::Namespace;
use pyo3::types::PyModule;
use pyo3::Bound;
use vstd::prelude::*;

verus! {

/// The name under which the module publishes its version.
pub const VERSION_KEY: &'static str = "__version__";

/// The namespace after a load that found it as `before`, for a build that
/// declares `version`.
pub open spec fn loaded(before: Map<Seq<char>, Seq<char>>, version: Seq<char>) -> Map<
    Seq<char>,
    Seq<char>,
> {
    before.insert(VERSION_KEY@, version)
}

/// Initializes the module behind `handle`: publishes `version`, the package
/// version that the build declares, under `VERSION_KEY`, and nothing else.
///
/// Fails with `DuplicateKey`, without calling the host, exactly when the
/// version was already published through `handle`. Otherwise the host
/// decides; a failure leaves the record as it was.
pub fn initialize(handle: &mut ModuleHandle<'_, '_>, version: &str) -> (r: Result<(), InitError>)
    ensures
        final(handle).module() == old(handle).module(),
        old(handle)@.contains_key(VERSION_KEY@) <==> r is Err && r->Err_0 is DuplicateKey,
        r is Ok ==> final(handle)@ == loaded(old(handle)@, version@),
        r is Err ==> final(handle)@ == old(handle)@,
{
    handle.bind(VERSION_KEY, version)
}

/// Runs the bootstrap on `module`, which the host is loading, for a build
/// that declares `version`, and returns what was published.
///
/// Only the host can make a load fail. A load that succeeds has published
/// `loaded(Map::empty(), version@)`: the version, and nothing else.
pub fn load(module: &Bound<'_, PyModule>, version: &str) -> (r: Result<Namespace, InitError>)
    ensures
        match r {
            Ok(published) => published@ == loaded(Map::empty(), version@),
            Err(e) => e is Host,
        },
{
    let mut handle = ModuleHandle::new(module);
    match initialize(&mut handle, version) {
        Ok(()) => Ok(handle.into_published()),
        Err(e) => Err(e),
    }
}

/// Presence: after a load the namespace binds the version key, whatever it
/// held before.
pub proof fn lemma_version_present(before: Map<Seq<char>, Seq<char>>, version: Seq<char>)
    ensures
        loaded(before, version).contains_key(VERSION_KEY@),
{
}

/// Accuracy: the text bound to the version key is the declared version
/// itself, character for character, with nothing before or after it.
pub proof fn lemma_version_exact(before: Map<Seq<char>, Seq<char>>, version: Seq<char>)
    ensures
        loaded(before, version)[VERSION_KEY@] == version,
        loaded(before, version)[VERSION_KEY@].len() == version.len(),
{
}

/// Repeatable load: two loads of one build publish the same version,
/// whatever each of them found, and two loads that found the same
/// namespace leave the same namespace.
pub proof fn lemma_load_repeatable(
    first: Map<Seq<char>, Seq<char>>,
    second: Map<Seq<char>, Seq<char>>,
    version: Seq<char>,
)
    ensures
        loaded(first, version)[VERSION_KEY@] == loaded(second, version)[VERSION_KEY@],
        first == second ==> loaded(first, version) == loaded(second, version),
{
}

/// No other surface: a load binds the version key and touches no other
/// name, so a load into an empty namespace leaves exactly one binding, the
/// version.
pub proof fn lemma_no_other_surface(before: Map<Seq<char>, Seq<char>>, version: Seq<char>)
    ensures
        loaded(before, version).dom() == before.dom().insert(VERSION_KEY@),
        forall|name: Seq<char>|
            name != VERSION_KEY@ && before.contains_key(name) ==> loaded(before, version)[name]
                == before[name],
        before.dom().finite() && !before.contains_key(VERSION_KEY@) ==> loaded(
            before,
            version,
        ).len() == before.len() + 1,
        loaded(Map::empty(), version) == Map::<Seq<char>, Seq<char>>::empty().insert(
            VERSION_KEY@,
            version,
        ),
        loaded(Map::empty(), version).dom() == Set::<Seq<char>>::empty().insert(VERSION_KEY@),
        loaded(Map::empty(), version).len() == 1,
{
}

} // verus!
