//! The Python runtime, as far as the resolver needs it.
//!
//! Everything in this file is taken on trust: the types are opaque to Verus,
//! and the contracts of the functions restate what PyO3 documents. None of
//! the functions promises that a lookup succeeds, since that depends on the
//! interpreter and on what is installed beside it. Each returns unless the
//! interpreter runs out of memory or hands on a panic from Rust code that it
//! called, which PyO3 raises again.

use crate::resolver::look_up;
use crate::resolver::Lookup;
use pyo3::types::PyCapsule;
use pyo3::types::PyCapsuleMethods;
use pyo3::types::PyModule;
use pyo3::Py;
use pyo3::PyAny;
use pyo3::PyErr;
use pyo3::Python;
use vstd::prelude::*;

verus! {

/// `pyo3::Python`: the token that shows that the calling thread is attached
/// to an initialized interpreter.
#[verifier::external_type_specification]
#[verifier::external_body]
pub struct ExPython<'py>(Python<'py>);

/// `pyo3::Py`: an owned reference to a Python object.
#[verifier::external_type_specification]
#[verifier::external_body]
#[verifier::reject_recursive_types(T)]
pub struct ExPy<T>(Py<T>);

/// `pyo3::PyAny`: a Python object of any type.
#[verifier::external_type_specification]
#[verifier::external_body]
pub struct ExPyAny(PyAny);

/// `pyo3::types::PyModule`: a Python module object.
#[verifier::external_type_specification]
#[verifier::external_body]
pub struct ExPyModule(PyModule);

/// `pyo3::types::PyCapsule`: a Python capsule object.
#[verifier::external_type_specification]
#[verifier::external_body]
pub struct ExPyCapsule(PyCapsule);

/// `pyo3::PyErr`: a Python exception.
#[verifier::external_type_specification]
#[verifier::external_body]
pub struct ExPyErr(PyErr);

/// Calls `Python::import`, which imports the module called `name` and
/// returns it, or the exception that the import raised. Nothing is claimed
/// of the outcome.
#[verifier::external_body]
pub(crate) fn import_module(py: Python<'_>, name: &str) -> Result<Py<PyModule>, PyErr> {
    match py.import(name) {
        Ok(module) => Ok(module.unbind()),
        Err(error) => Err(error),
    }
}

/// Calls `Py::getattr`, which looks up the attribute called `name` on
/// `module` and returns its value, or the exception that the lookup raised.
/// Nothing is claimed of the outcome.
#[verifier::external_body]
pub(crate) fn get_attribute(py: Python<'_>, module: &Py<PyModule>, name: &str) -> Result<
    Py<PyAny>,
    PyErr,
> {
    module.getattr(py, name)
}

/// Calls `Bound::cast_into`, which hands `object` back as a capsule if it is
/// one. The result is `None` if it is not. Nothing is claimed of the outcome.
#[verifier::external_body]
pub(crate) fn into_capsule(py: Python<'_>, object: Py<PyAny>) -> Option<Py<PyCapsule>> {
    match object.into_bound(py).cast_into::<PyCapsule>() {
        Ok(capsule) => Some(capsule.unbind()),
        Err(_) => None,
    }
}

/// Calls `PyCapsuleMethods::pointer_checked` without a name, which returns
/// the pointer held by a capsule that has no name and errs on any other. The
/// result is the pointer's address, or `None` where the call erred. The
/// pointer comes back as a `NonNull`, so the address is never zero.
#[verifier::external_body]
pub(crate) fn capsule_pointer(py: Python<'_>, capsule: &Py<PyCapsule>) -> (payload: Option<usize>)
    ensures
        payload != Some(0usize),
{
    match capsule.bind(py).pointer_checked(None) {
        Ok(pointer) => Some(pointer.addr().get()),
        Err(_) => None,
    }
}

/// Calls `Python::try_attach`, which attaches the calling thread to the
/// interpreter and hands back what the closure returned, or returns `None`
/// without running it where the thread cannot be attached: above all where
/// the interpreter is not initialized. The closure is one call of `look_up`,
/// so a lookup that comes back is one that `look_up` returned: a payload in
/// it is never zero. Nothing else is claimed of the outcome.
#[verifier::external_body]
pub(crate) fn attach_and_look_up(module_name: &str, attribute_name: &str) -> (attempt: Option<
    Lookup,
>)
    ensures
        attempt matches Some(Lookup::Found(_, payload)) ==> payload != Some(0usize),
{
    Python::try_attach(|py| look_up(py, module_name, attribute_name))
}

} // verus!
