use pyo3::exceptions::PyTypeError;
use pyo3::types::{PyAnyMethods, PyListMethods, PyModule, PyModuleMethods};
use pyo3::{Bound, Python};
use simulor_rust::bootstrap::{initialize, load, VERSION_KEY};
use simulor_rust::error::InitError;
use simulor_rust::handle::ModuleHandle;

fn text_attribute(module: &Bound<'_, PyModule>, name: &str) -> String {
    module.getattr(name).unwrap().extract::<String>().unwrap()
}

fn exported_names(module: &Bound<'_, PyModule>) -> Vec<String> {
    let index = module.index().unwrap();
    let mut names = Vec::new();
    for item in index.iter() {
        names.push(item.extract::<String>().unwrap());
    }
    names
}

#[test]
fn version_key_is_dunder_version() {
    assert_eq!(VERSION_KEY, "__version__");
}

#[test]
fn loading_publishes_the_declared_version() {
    Python::initialize();
    Python::attach(|py| {
        let module = PyModule::new(py, "_simulor_rust").unwrap();
        let published = load(&module, "0.1.0").unwrap();
        assert_eq!(text_attribute(&module, "__version__"), "0.1.0");
        assert_eq!(published.get("__version__"), Some("0.1.0"));
    });
}

#[test]
fn version_binding_is_present_after_load() {
    Python::initialize();
    Python::attach(|py| {
        let module = PyModule::new(py, "_simulor_rust").unwrap();
        assert!(!module.hasattr("__version__").unwrap());
        let mut handle = ModuleHandle::new(&module);
        assert!(!handle.published().contains_key("__version__"));
        assert!(initialize(&mut handle, "0.1.0").is_ok());
        assert!(module.hasattr("__version__").unwrap());
        assert!(handle.published().contains_key("__version__"));
    });
}

#[test]
fn version_text_is_published_unchanged() {
    Python::initialize();
    Python::attach(|py| {
        let module = PyModule::new(py, "_simulor_rust").unwrap();
        load(&module, "0.1.0").unwrap();
        let seen = text_attribute(&module, "__version__");
        assert_eq!(seen, "0.1.0");
        assert_eq!(seen.len(), 5);
        assert_eq!(seen.trim(), seen);

        let other = PyModule::new(py, "other").unwrap();
        let published = load(&other, " 1.2.3-rc.1+build \n").unwrap();
        assert_eq!(text_attribute(&other, "__version__"), " 1.2.3-rc.1+build \n");
        assert_eq!(published.get("__version__"), Some(" 1.2.3-rc.1+build \n"));

        let bare = PyModule::new(py, "bare").unwrap();
        load(&bare, "").unwrap();
        assert_eq!(text_attribute(&bare, "__version__"), "");
    });
}

#[test]
fn loading_again_publishes_the_same_version() {
    Python::initialize();
    Python::attach(|py| {
        let first = PyModule::new(py, "_simulor_rust").unwrap();
        let second = PyModule::new(py, "_simulor_rust").unwrap();
        let a = load(&first, "0.1.0").unwrap();
        let b = load(&second, "0.1.0").unwrap();
        assert_eq!(text_attribute(&first, "__version__"), text_attribute(&second, "__version__"));
        assert_eq!(a.get("__version__"), b.get("__version__"));
        assert_eq!(a.len(), b.len());
    });
}

#[test]
fn loading_publishes_exactly_one_binding() {
    Python::initialize();
    Python::attach(|py| {
        let module = PyModule::new(py, "_simulor_rust").unwrap();
        let published = load(&module, "0.1.0").unwrap();
        assert_eq!(published.len(), 1);
        assert_eq!(published.get("__version__"), Some("0.1.0"));
        assert_eq!(exported_names(&module), vec!["__version__".to_string()]);
        for name in exported_names(&module) {
            assert!(!module.getattr(name.as_str()).unwrap().is_callable());
        }
    });
}

#[test]
fn second_initialization_through_a_handle_is_a_duplicate_key() {
    Python::initialize();
    Python::attach(|py| {
        let module = PyModule::new(py, "_simulor_rust").unwrap();
        let mut handle = ModuleHandle::new(&module);
        assert!(initialize(&mut handle, "0.1.0").is_ok());
        let again = initialize(&mut handle, "0.2.0");
        assert!(matches!(again, Err(InitError::DuplicateKey)));
        assert_eq!(handle.published().len(), 1);
        assert_eq!(handle.published().get("__version__"), Some("0.1.0"));
        assert_eq!(text_attribute(&module, "__version__"), "0.1.0");
        assert_eq!(exported_names(&module), vec!["__version__".to_string()]);
    });
}

#[test]
fn host_refusal_is_reported_and_publishes_nothing() {
    Python::initialize();
    Python::attach(|py| {
        let module = PyModule::new(py, "_simulor_rust").unwrap();
        module.setattr("__all__", 5).unwrap();
        let mut handle = ModuleHandle::new(&module);
        match initialize(&mut handle, "0.1.0") {
            Err(InitError::Host(cause)) => assert!(cause.is_instance_of::<PyTypeError>(py)),
            Err(InitError::DuplicateKey) => panic!("nothing was published before"),
            Ok(()) => panic!("the host cannot have accepted the binding"),
        }
        assert_eq!(handle.published().len(), 0);
        assert!(!handle.published().contains_key("__version__"));
        assert!(!module.hasattr("__version__").unwrap());
    });
}

#[test]
fn load_fails_only_with_the_hosts_error() {
    Python::initialize();
    Python::attach(|py| {
        let module = PyModule::new(py, "_simulor_rust").unwrap();
        module.setattr("__all__", "not a list").unwrap();
        assert!(matches!(load(&module, "0.1.0"), Err(InitError::Host(_))));
        assert!(!module.hasattr("__version__").unwrap());
    });
}

#[test]
fn bind_publishes_into_the_module_and_the_record() {
    Python::initialize();
    Python::attach(|py| {
        let module = PyModule::new(py, "_simulor_rust").unwrap();
        let mut handle = ModuleHandle::new(&module);
        assert!(handle.bind("flavour", "plain").is_ok());
        assert!(handle.bind("author", "nobody").is_ok());
        assert!(matches!(handle.bind("flavour", "other"), Err(InitError::DuplicateKey)));
        assert_eq!(text_attribute(&module, "flavour"), "plain");
        assert_eq!(text_attribute(&module, "author"), "nobody");
        assert_eq!(exported_names(&module), vec!["flavour".to_string(), "author".to_string()]);
        let record = handle.into_published();
        assert_eq!(record.len(), 2);
        assert_eq!(record.get("flavour"), Some("plain"));
        assert_eq!(record.get("author"), Some("nobody"));
    });
}

#[test]
fn a_name_bound_by_the_host_alone_is_no_duplicate() {
    Python::initialize();
    Python::attach(|py| {
        let module = PyModule::new(py, "_simulor_rust").unwrap();
        module.setattr("__version__", "stale").unwrap();
        let published = load(&module, "0.1.0").unwrap();
        assert_eq!(text_attribute(&module, "__version__"), "0.1.0");
        assert_eq!(published.get("__version__"), Some("0.1.0"));
    });
}
