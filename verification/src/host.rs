//! The boundary to the Python runtime. Verus takes what stands here on
//! trust: the types are opaque to it, and the one call has no contract
//! because its outcome is the host's to decide.

use pyo3::types::PyModule;
use pyo3::Bound;
use pyo3::PyErr;
use vstd::prelude::*;

verus! {

/// `pyo3::Bound`: a reference to a Python object, valid while the thread is
/// attached to the interpreter. Opaque.
#[verifier::external_type_specification]
#[verifier::external_body]
#[verifier::reject_recursive_types(T)]
pub struct ExBound<'py, T>(Bound<'py, T>);

/// `pyo3::types::PyModule`: a Python module object. Opaque.
#[verifier::external_type_specification]
#[verifier::external_body]
pub struct ExPyModule(PyModule);

/// `pyo3::PyErr`: a Python exception. Opaque.
#[verifier::external_type_specification]
#[verifier::external_body]
pub struct ExPyErr(PyErr);

/// Calls `pyo3::types::PyModuleMethods::add` on `module`, with `name` and
/// `value` as Python strings.
///
/// pyo3 appends the name to the module's `__all__` list, which it creates if
/// the module has none, and then sets the attribute. It returns the
/// interpreter's error if `__all__` cannot be read or is not a list, or if
/// the attribute cannot be set. Whether the host accepts the binding is not
/// a function of the arguments, so nothing is claimed of the outcome.
/// pyo3 panics if the interpreter cannot grow `__all__`, which only an
/// exhausted host does.
#[verifier::external_body]
pub(crate) fn add_text(module: &Bound<'_, PyModule>, name: &str, value: &str) -> (outcome: Result<
    (),
    PyErr,
>) {
    pyo3::types::PyModuleMethods::add(module, name, value)
}

} // verus!
