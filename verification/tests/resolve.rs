use npyffi::resolver::get_numpy_api;
use npyffi::resolver::look_up;
use npyffi::resolver::resolve;
use npyffi::resolver::Fatal;
use npyffi::resolver::ImportError;
use npyffi::resolver::Lookup;
use pyo3::exceptions::PyAttributeError;
use pyo3::exceptions::PyImportError;
use pyo3::types::PyAnyMethods;
use pyo3::types::PyCapsule;
use pyo3::types::PyCapsuleMethods;
use pyo3::types::PyModule;
use pyo3::types::PyModuleMethods;
use pyo3::Bound;
use pyo3::Python;

fn register<'py>(py: Python<'py>, name: &str) -> Bound<'py, PyModule> {
    let module = PyModule::new(py, name).unwrap();
    let modules = py.import("sys").unwrap().getattr("modules").unwrap();
    modules.set_item(name, &module).unwrap();
    module
}

#[allow(deprecated)]
fn add_table(py: Python<'_>, module: &Bound<'_, PyModule>, attribute: &str) -> usize {
    let capsule = PyCapsule::new(py, [7usize; 42], None).unwrap();
    let address = capsule.pointer_checked(None).unwrap().addr().get();
    module.add(attribute, capsule).unwrap();
    address
}

#[test]
fn resolve_finds_the_table_of_a_loaded_module() {
    Python::initialize();
    Python::attach(|py| {
        let module = register(py, "kernel_found");
        let address = add_table(py, &module, "_TABLE");
        assert_ne!(address, 0);
        match resolve(py, "kernel_found", "_TABLE") {
            Ok(table) => {
                assert_eq!(table.base, address);
                assert!(table.module.is(&module));
            }
            Err(_) => panic!("expected a table"),
        }
    });
}

#[test]
fn resolve_tells_two_tables_apart() {
    Python::initialize();
    Python::attach(|py| {
        let module = register(py, "kernel_two_tables");
        let first = add_table(py, &module, "_FIRST");
        let second = add_table(py, &module, "_SECOND");
        assert_ne!(first, second);
        match resolve(py, "kernel_two_tables", "_FIRST") {
            Ok(table) => assert_eq!(table.base, first),
            Err(_) => panic!("expected a table"),
        }
        match resolve(py, "kernel_two_tables", "_SECOND") {
            Ok(table) => assert_eq!(table.base, second),
            Err(_) => panic!("expected a table"),
        }
    });
}

#[test]
fn resolve_gives_the_same_table_every_time() {
    Python::initialize();
    Python::attach(|py| {
        let module = register(py, "kernel_stable");
        let address = add_table(py, &module, "_TABLE");
        for _ in 0..3 {
            match resolve(py, "kernel_stable", "_TABLE") {
                Ok(table) => assert_eq!(table.base, address),
                Err(_) => panic!("expected a table"),
            }
        }
    });
}

#[test]
fn resolve_reports_a_module_that_cannot_be_imported() {
    Python::initialize();
    Python::attach(|py| {
        match resolve(py, "kernel_that_is_not_there", "_TABLE") {
            Err(ImportError::Module(exception)) => {
                assert!(exception.is_instance_of::<PyImportError>(py));
            }
            _ => panic!("expected a module error"),
        }
    });
}

#[test]
fn resolve_reports_an_empty_module_name() {
    Python::initialize();
    Python::attach(|py| {
        assert!(matches!(resolve(py, "", "_TABLE"), Err(ImportError::Module(_))));
    });
}

#[test]
fn resolve_reports_an_attribute_that_is_missing() {
    Python::initialize();
    Python::attach(|py| {
        register(py, "kernel_without_table");
        match resolve(py, "kernel_without_table", "_TABLE") {
            Err(ImportError::Attribute(exception)) => {
                assert!(exception.is_instance_of::<PyAttributeError>(py));
            }
            _ => panic!("expected an attribute error"),
        }
    });
}

#[test]
fn resolve_gives_a_null_base_for_an_attribute_that_is_no_capsule() {
    Python::initialize();
    Python::attach(|py| {
        let module = register(py, "kernel_with_number");
        module.add("_TABLE", 12345usize).unwrap();
        match resolve(py, "kernel_with_number", "_TABLE") {
            Ok(table) => {
                assert_eq!(table.base, 0);
                assert!(table.module.is(&module));
            }
            Err(_) => panic!("expected a table"),
        }
    });
}

// A limit of the binding, not what is meant: the name of a capsule should
// play no part, but the address can only be asked for under no name, and the
// interpreter refuses that for a capsule that has one.
#[test]
fn resolve_gives_a_null_base_for_a_capsule_with_a_name() {
    Python::initialize();
    Python::attach(|py| {
        let module = register(py, "kernel_with_named_capsule");
        let capsule = PyCapsule::new_with_value(py, [7usize; 42], c"table").unwrap();
        module.add("_TABLE", capsule).unwrap();
        match resolve(py, "kernel_with_named_capsule", "_TABLE") {
            Ok(table) => assert_eq!(table.base, 0),
            Err(_) => panic!("expected a table"),
        }
    });
}

#[test]
fn look_up_says_how_far_it_got() {
    Python::initialize();
    Python::attach(|py| {
        let module = register(py, "kernel_looked_up");
        let address = add_table(py, &module, "_TABLE");
        module.add("_NUMBER", 5usize).unwrap();
        assert!(matches!(look_up(py, "kernel_never_there", "_TABLE"), Lookup::NoModule(_)));
        assert!(matches!(look_up(py, "kernel_looked_up", "_OTHER"), Lookup::NoAttribute(_)));
        match look_up(py, "kernel_looked_up", "_NUMBER") {
            Lookup::Found(owner, payload) => {
                assert!(owner.is(&module));
                assert_eq!(payload, None);
            }
            _ => panic!("expected the attribute"),
        }
        match look_up(py, "kernel_looked_up", "_TABLE") {
            Lookup::Found(owner, payload) => {
                assert!(owner.is(&module));
                assert_eq!(payload, Some(address));
            }
            _ => panic!("expected the attribute"),
        }
    });
}

#[test]
fn get_numpy_api_attaches_and_finds_the_table() {
    Python::initialize();
    let address = Python::attach(|py| {
        let module = register(py, "kernel_for_attach");
        add_table(py, &module, "_TABLE")
    });
    match get_numpy_api("kernel_for_attach", "_TABLE") {
        Ok(table) => assert_eq!(table.base, address),
        Err(_) => panic!("expected a table"),
    }
}

#[test]
fn get_numpy_api_gives_up_on_a_module_that_cannot_be_imported() {
    Python::initialize();
    match get_numpy_api("kernel_nobody_installed", "_TABLE") {
        Err(fatal) => {
            assert_eq!(fatal, Fatal::ModuleImport);
            assert_eq!(fatal.message(), "Failed to import numpy module");
        }
        Ok(_) => panic!("expected a fatal outcome"),
    }
}

#[test]
fn get_numpy_api_gives_up_on_an_attribute_that_is_missing() {
    Python::initialize();
    Python::attach(|py| {
        register(py, "kernel_bare");
    });
    match get_numpy_api("kernel_bare", "_TABLE") {
        Err(fatal) => {
            assert_eq!(fatal, Fatal::AttributeLookup);
            assert_eq!(fatal.message(), "Failed to import numpy module");
        }
        Ok(_) => panic!("expected a fatal outcome"),
    }
}
