//! Resolving a table of pointers that a Python module exports in a capsule.

use crate::python::attach_and_look_up;
use crate::python::capsule_pointer;
use crate::python::get_attribute;
use crate::python::import_module;
use crate::python::into_capsule;
use pyo3::types::PyModule;
use pyo3::Py;
use pyo3::PyErr;
use pyo3::Python;
use vstd::prelude::*;

verus! {

/// Why a table could not be resolved, with the exception that Python raised.
pub enum ImportError {
    /// The module could not be imported.
    Module(PyErr),
    /// The module was imported, but the attribute could not be looked up.
    Attribute(PyErr),
}

/// Why resolving a table had to be given up, with nothing left but to stop.
#[derive(Clone, Copy, Debug, PartialEq, Eq)]
pub enum Fatal {
    /// The interpreter was not initialized, or could not be attached to.
    NotInitialized,
    /// The module could not be imported.
    ModuleImport,
    /// The attribute could not be looked up on the module.
    AttributeLookup,
}

/// A resolved table: where it starts, and the module that owns it. The table
/// lives as long as the module stays loaded, so whoever uses `base` keeps
/// `module` for as long.
pub struct ApiTable {
    /// The module that exports the table.
    pub module: Py<PyModule>,
    /// The address of the table's first slot; zero if the attribute gave none.
    pub base: usize,
}

impl ImportError {
    /// The exception that Python raised.
    pub open spec fn spec_exception(self) -> PyErr {
        match self {
            ImportError::Module(exception) => exception,
            ImportError::Attribute(exception) => exception,
        }
    }

    /// The reason without the exception.
    pub open spec fn spec_fatal(self) -> Fatal {
        match self {
            ImportError::Module(_) => Fatal::ModuleImport,
            ImportError::Attribute(_) => Fatal::AttributeLookup,
        }
    }

    /// Takes out the exception that Python raised, to hand it on.
    pub fn into_exception(self) -> (exception: PyErr)
        ensures
            exception == self.spec_exception(),
    {
        match self {
            ImportError::Module(exception) => exception,
            ImportError::Attribute(exception) => exception,
        }
    }

    /// Drops the exception and keeps the reason.
    pub fn into_fatal(self) -> (fatal: Fatal)
        ensures
            fatal == self.spec_fatal(),
    {
        match self {
            ImportError::Module(_) => Fatal::ModuleImport,
            ImportError::Attribute(_) => Fatal::AttributeLookup,
        }
    }
}

/// The base address that a capsule's payload stands for: the payload itself,
/// or the null address where the capsule gave none.
pub open spec fn spec_table_base(payload: Option<usize>) -> usize {
    match payload {
        Some(address) => address,
        None => 0,
    }
}

/// Turns a capsule's payload into a base address. A missing payload is not an
/// error: it gives the null address.
pub fn table_base(payload: Option<usize>) -> (base: usize)
    ensures
        base == spec_table_base(payload),
{
    match payload {
        Some(address) => address,
        None => 0,
    }
}

/// How far a lookup in the interpreter got.
pub enum Lookup {
    /// The module could not be imported; Python raised the exception.
    NoModule(PyErr),
    /// The module was imported, but looking up the attribute raised the
    /// exception.
    NoAttribute(PyErr),
    /// The attribute was found on the module. The payload is the address held
    /// by the attribute if it is a capsule without a name, and `None` if it is
    /// anything else.
    ///
    /// The name of a capsule is meant to play no part. That a capsule with a
    /// name gives no payload is a limit of this binding: the address can only
    /// be asked for under no name, which the interpreter refuses for a
    /// capsule that has one, and PyO3 offers no safe way to ask under the
    /// capsule's own name.
    Found(Py<PyModule>, Option<usize>),
}

/// What a lookup comes to: the table or the error.
pub open spec fn spec_conclude(lookup: Lookup) -> Result<ApiTable, ImportError> {
    match lookup {
        Lookup::NoModule(exception) => Err(ImportError::Module(exception)),
        Lookup::NoAttribute(exception) => Err(ImportError::Attribute(exception)),
        Lookup::Found(module, payload) => Ok(ApiTable { module, base: spec_table_base(payload) }),
    }
}

/// What an attempt to attach and look up comes to, where every failure is
/// final. `None` stands for a thread that could not be attached.
pub open spec fn spec_settle(attempt: Option<Lookup>) -> Result<ApiTable, Fatal> {
    match attempt {
        None => Err(Fatal::NotInitialized),
        Some(lookup) => match spec_conclude(lookup) {
            Ok(table) => Ok(table),
            Err(error) => Err(error.spec_fatal()),
        },
    }
}

/// Decides what a lookup comes to.
///
/// A module that could not be imported and an attribute that could not be
/// looked up are errors, each with Python's exception. An attribute that was
/// found always gives a table, whatever it holds: the payload is not
/// examined, and a missing one gives the null base.
pub fn conclude(lookup: Lookup) -> (outcome: Result<ApiTable, ImportError>)
    ensures
        outcome == spec_conclude(lookup),
{
    match lookup {
        Lookup::NoModule(exception) => Err(ImportError::Module(exception)),
        Lookup::NoAttribute(exception) => Err(ImportError::Attribute(exception)),
        Lookup::Found(module, payload) => Ok(ApiTable { module, base: table_base(payload) }),
    }
}

/// Decides what an attempt to attach and look up comes to, where the caller
/// cannot go on without the table.
pub fn settle(attempt: Option<Lookup>) -> (outcome: Result<ApiTable, Fatal>)
    ensures
        outcome == spec_settle(attempt),
{
    match attempt {
        None => Err(Fatal::NotInitialized),
        Some(lookup) => match conclude(lookup) {
            Ok(table) => Ok(table),
            Err(error) => Err(error.into_fatal()),
        },
    }
}

/// Imports the module called `module_name`, looks up `attribute_name` on it
/// and reads the attribute as a capsule. Each step is one call into the
/// interpreter, and the first that fails ends the lookup.
pub fn look_up(py: Python<'_>, module_name: &str, attribute_name: &str) -> (lookup: Lookup)
    ensures
        lookup matches Lookup::Found(_, payload) ==> payload != Some(0usize),
{
    match import_module(py, module_name) {
        Err(exception) => Lookup::NoModule(exception),
        Ok(module) => match get_attribute(py, &module, attribute_name) {
            Err(exception) => Lookup::NoAttribute(exception),
            Ok(attribute) => match into_capsule(py, attribute) {
                None => Lookup::Found(module, None),
                Some(capsule) => Lookup::Found(module, capsule_pointer(py, &capsule)),
            },
        },
    }
}

/// Resolves the table that the module called `module_name` exports in the
/// capsule called `attribute_name`, on a thread that is attached to the
/// interpreter.
///
/// Whether the module and the attribute are found is for the interpreter to
/// say. The outcome is what `conclude` makes of some lookup that the
/// interpreter can answer with: the error of a module or an attribute that
/// was not found, with Python's exception, or else a table.
pub fn resolve(py: Python<'_>, module_name: &str, attribute_name: &str) -> (outcome: Result<
    ApiTable,
    ImportError,
>)
    ensures
        exists|lookup: Lookup|
            outcome == #[trigger] spec_conclude(lookup) && (lookup matches Lookup::Found(
                _,
                payload,
            ) ==> payload != Some(0usize)),
{
    conclude(look_up(py, module_name, attribute_name))
}

/// Resolves a table as `resolve` does, on a thread that need not be attached
/// yet, for a caller that cannot go on without the table.
///
/// Neither name may hold a NUL character: `has_nul` tells. Whether the thread
/// can be attached and the table is found is for the interpreter to say. The
/// outcome is what `settle` makes of some attempt that the interpreter can
/// answer with; an interpreter that is not initialized gives
/// `Fatal::NotInitialized`.
pub fn get_numpy_api(module: &str, capsule: &str) -> (outcome: Result<ApiTable, Fatal>)
    requires
        !spec_has_nul(module@),
        !spec_has_nul(capsule@),
    ensures
        exists|attempt: Option<Lookup>|
            outcome == #[trigger] spec_settle(attempt) && (attempt matches Some(
                Lookup::Found(_, payload),
            ) ==> payload != Some(0usize)),
{
    settle(attach_and_look_up(module, capsule))
}

/// Whether a name holds a NUL character, which ends a C string and so cannot
/// stand inside a name that is handed to the interpreter as one.
pub open spec fn spec_has_nul(name: Seq<char>) -> bool {
    name.contains('\0')
}

/// Looks for a NUL character in a name.
pub fn has_nul(name: &str) -> (found: bool)
    ensures
        found == spec_has_nul(name@),
{
    let mut found = false;
    for character in characters: name.chars()
        invariant
            characters.seq() == name@,
            found <==> exists|i: int| 0 <= i < characters.index() && name@[i] == '\0',
    {
        if character == '\0' {
            found = true;
        }
    }
    found
}

impl Fatal {
    /// The words to stop with.
    pub open spec fn spec_message(self) -> Seq<char> {
        match self {
            Fatal::NotInitialized => NOT_INITIALIZED@,
            Fatal::ModuleImport => IMPORT_FAILED@,
            Fatal::AttributeLookup => IMPORT_FAILED@,
        }
    }

    /// The words to stop with. A module that cannot be imported and an
    /// attribute that is missing are reported alike.
    pub fn message(&self) -> (text: &'static str)
        ensures
            text@ == self.spec_message(),
    {
        match self {
            Fatal::NotInitialized => NOT_INITIALIZED,
            Fatal::ModuleImport => IMPORT_FAILED,
            Fatal::AttributeLookup => IMPORT_FAILED,
        }
    }
}

/// What is said when the interpreter is not initialized.
pub const NOT_INITIALIZED: &'static str =
    "Numpy API is called before initializing Python!\nPlease make sure that you get gil, by `let gil = Python::acquire_gil();`";

/// What is said when the module or the attribute is not found.
pub const IMPORT_FAILED: &'static str = "Failed to import numpy module";

} // verus!
