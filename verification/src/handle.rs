//! A module of the host together with the record of what was published
//! into it.

use crate::error::InitError;
use crate::host::add_text;
use crate::namespace::Namespace;
use pyo3::types::PyModule;
use pyo3::Bound;
use pyo3::PyErr;
use vstd::prelude::*;

verus! {

/// A handle to a module that the host runtime is loading. It records each
/// binding that the host accepted through it; its view is that record, a
/// map from names to text.
pub struct ModuleHandle<'a, 'py> {
    module: &'a Bound<'py, PyModule>,
    published: Namespace,
}

impl<'a, 'py> View for ModuleHandle<'a, 'py> {
    type V = Map<Seq<char>, Seq<char>>;

    closed spec fn view(&self) -> Map<Seq<char>, Seq<char>> {
        self.published@
    }
}

impl<'a, 'py> ModuleHandle<'a, 'py> {
    /// The module of the host that the handle publishes into.
    pub closed spec fn module(&self) -> &'a Bound<'py, PyModule> {
        self.module
    }

    /// A handle to `module` through which nothing was published yet.
    pub fn new(module: &'a Bound<'py, PyModule>) -> (handle: Self)
        ensures
            handle@ == Map::<Seq<char>, Seq<char>>::empty(),
            handle.module() == module,
    {
        ModuleHandle { module, published: Namespace::new() }
    }

    /// What was published through the handle.
    pub fn published(&self) -> (record: &Namespace)
        ensures
            record@ == self@,
    {
        &self.published
    }

    /// Gives up the handle for the record of what was published through it.
    pub fn into_published(self) -> (record: Namespace)
        ensures
            record@ == self@,
    {
        self.published
    }

    /// Publishes `name`, bound to `value`, into the module.
    ///
    /// A name that was published through this handle before is refused
    /// with `DuplicateKey`, and the host is not called. Otherwise the host
    /// decides: if it accepts, the binding joins the record; if it refuses,
    /// its error comes back in `Host` and the record is unchanged. A name
    /// that the module holds by other means is no duplicate: the host
    /// rebinds it.
    pub fn bind(&mut self, name: &str, value: &str) -> (r: Result<(), InitError>)
        ensures
            final(self).module() == old(self).module(),
            old(self)@.contains_key(name@) <==> r is Err && r->Err_0 is DuplicateKey,
            r is Ok ==> final(self)@ == old(self)@.insert(name@, value@),
            r is Err ==> final(self)@ == old(self)@,
    {
        if self.published.contains_key(name) {
            return Err(InitError::DuplicateKey);
        }
        let outcome = add_text(self.module, name, value);
        self.record(name, value, outcome)
    }

    /// Takes the host's answer to a request to bind `name` to `value`: on
    /// acceptance the binding joins the record, on refusal the host's error
    /// is handed on and the record is unchanged.
    fn record(&mut self, name: &str, value: &str, outcome: Result<(), PyErr>) -> (r: Result<
        (),
        InitError,
    >)
        requires
            !old(self)@.contains_key(name@),
        ensures
            final(self).module() == old(self).module(),
            match outcome {
                Ok(()) => r is Ok && final(self)@ == old(self)@.insert(name@, value@),
                Err(e) => r == Err::<(), InitError>(InitError::Host(e)) && final(self)@ == old(
                    self,
                )@,
            },
    {
        match outcome {
            Ok(()) => {
                self.published.insert(name, value);
                Ok(())
            },
            Err(e) => Err(InitError::Host(e)),
        }
    }
}

} // verus!
