use plugkit::database::{validate_table_name, DbValue};
use plugkit::error::{Error, ErrorKind};
use plugkit::plugin::{PluginRegistrar, PluginStatus};

#[test]
fn error_texts() {
    let e = Error::from(ErrorKind::PluginNotFound("p".into()));
    assert!(matches!(e.kind(), ErrorKind::PluginNotFound(id) if id == "p"));
    assert_eq!(e.text(), "Plugin 'p' not found");
    assert_eq!(Error::from(ErrorKind::SymbolNotFound("s".into(), "l".into())).text(), "Could not find symbol 's' in library 'l'");
    assert_eq!(Error::from(ErrorKind::LibraryOpenFailed("x.so".into(), "boom".into())).text(), "Library 'x.so' failed to open; error: 'boom'");
    assert_eq!(Error::from(ErrorKind::LibraryCloseFailed("x.so".into(), "boom".into())).text(), "Library 'x.so' failed to close; error: 'boom'");
    assert_eq!(Error::from(ErrorKind::IncompatibleLibraryVersion("x.so".into())).text(), "Library 'x.so' has incompatible version");
    assert_eq!(Error::from(ErrorKind::PluginRegistration("r".into())).text(), "Plugin(s) failed to register; error: 'r'");
    assert_eq!(Error::from(ErrorKind::UnknownPluginManagerType("t".into())).text(), "No Configured plugins for type 't'");
    assert_eq!(Error::from(ErrorKind::DependencyUnmet("d".into())).text(), "Dependency unmet: d");
    assert_eq!(Error::from(ErrorKind::CircularDependency("a,b".into())).text(), "Circular dependency: a,b");
    assert_eq!(Error::from(ErrorKind::DatabaseError("x".into())).text(), "Database error: x");
}

#[test]
fn error_sources() {
    assert_eq!(Error::from(ErrorKind::LibraryCloseFailed("x".into(), "cause".into())).source_text().as_deref(), Some("cause"));
    assert_eq!(Error::from(ErrorKind::PluginRegistration("r".into())).source_text().as_deref(), Some("r"));
    assert!(Error::from(ErrorKind::PluginNotFound("x".into())).source_text().is_none());
}

#[test]
fn table_names() {
    assert!(validate_table_name("demo_items").is_ok());
    assert!(validate_table_name("main.t_1").is_ok());
    assert!(validate_table_name("").is_ok());
    let err = validate_table_name("t; DROP TABLE x;--").unwrap_err();
    assert!(matches!(err.kind(), ErrorKind::DatabaseError(_)));
    assert!(validate_table_name("表").is_err());
}

#[test]
fn db_values() {
    assert!(matches!(DbValue::null(), DbValue::Null));
    assert!(matches!(DbValue::integer(3), DbValue::Int(3)));
    assert!(matches!(DbValue::text("a"), DbValue::Text(s) if s == "a"));
    assert!(matches!(DbValue::blob(vec![1, 2]), DbValue::Blob(b) if b == vec![1, 2]));
}

#[test]
fn menu_visibility_by_status() {
    assert!(!PluginStatus::Loaded.shows_menu());
    assert!(PluginStatus::Enabled.shows_menu());
    assert!(PluginStatus::Running.shows_menu());
}

#[test]
fn registrar_keeps_plugins_until_an_error() {
    let mut r: PluginRegistrar<u32> = PluginRegistrar::default();
    r.register(1);
    r.register(2);
    assert_eq!(r.plugins().unwrap(), vec![1, 2]);
    let mut r: PluginRegistrar<u32> = PluginRegistrar::default();
    r.register(1);
    r.error("first".to_string());
    r.register(2);
    r.error("second".to_string());
    assert_eq!(r.plugins().unwrap_err(), "second");
}
