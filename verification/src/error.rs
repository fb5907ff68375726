//! The failure of an initialization.

use pyo3::PyErr;
use vstd::prelude::*;

verus! {

/// A module handle could not accept a binding. A failed initialization is
/// final for that load: the library does not retry.
#[derive(Debug)]
pub enum InitError {
    /// The name is already bound through this handle.
    DuplicateKey,
    /// The host runtime refused the binding. Holds the host's own error,
    /// for the loader to raise.
    Host(PyErr),
}

} // verus!
