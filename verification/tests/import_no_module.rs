use npyffi::resolver::ImportError;
use npyffi::ufunc::PyUFuncModule;
use pyo3::exceptions::PyImportError;
use pyo3::types::PyAnyMethods;
use pyo3::Python;

#[test]
fn import_reports_a_module_that_cannot_be_imported() {
    Python::initialize();
    Python::attach(|py| {
        let modules = py.import("sys").unwrap().getattr("modules").unwrap();
        modules.set_item("numpy.core.umath", py.None()).unwrap();
        match PyUFuncModule::import(py) {
            Err(ImportError::Module(exception)) => {
                assert!(exception.is_instance_of::<PyImportError>(py));
            }
            _ => panic!("expected a module error"),
        }
    });
}
