use plugkit::config::PluginManagerConfiguration;

fn sorted(mut v: Vec<String>) -> Vec<String> {
    v.sort();
    v
}

#[test]
fn new_configuration_is_empty() {
    let config = PluginManagerConfiguration::default();
    assert!(config.is_empty());
    assert_eq!(config.len(), 0);
    assert!(config.plugin_types().is_empty());
    assert!(!config.contains_plugin_type("sound"));
    assert!(config.plugin_libraries_for_type("sound").is_none());
}

#[test]
fn insert_adds_and_replaces() {
    let mut config = PluginManagerConfiguration::default();
    assert!(config.insert("sound", &["beep", "boop"]).is_none());
    assert!(config.insert("light", &["bright", "mood"]).is_none());
    assert_eq!(config.len(), 2);
    assert!(!config.is_empty());
    assert_eq!(sorted(config.plugin_types()), vec!["light".to_string(), "sound".to_string()]);
    assert_eq!(
        sorted(config.plugin_libraries_for_type("sound").unwrap()),
        vec!["beep".to_string(), "boop".to_string()]
    );
    let previous = config.insert("sound", &["tick"]).unwrap();
    assert_eq!(sorted(previous), vec!["beep".to_string(), "boop".to_string()]);
    assert_eq!(config.plugin_libraries_for_type("sound").unwrap(), vec!["tick".to_string()]);
    assert_eq!(config.len(), 2);
}

#[test]
fn insert_keeps_each_library_once() {
    let mut config = PluginManagerConfiguration::default();
    let _ = config.insert("sound", &["beep", "beep", "boop"]);
    assert_eq!(
        sorted(config.plugin_libraries_for_type("sound").unwrap()),
        vec!["beep".to_string(), "boop".to_string()]
    );
}

#[test]
fn merge_unions_or_inserts() {
    let mut config = PluginManagerConfiguration::default();
    config.merge("effect", &["delay"]);
    assert_eq!(config.plugin_libraries_for_type("effect").unwrap(), vec!["delay".to_string()]);
    config.merge("effect", &["reverb", "delay"]);
    assert_eq!(
        sorted(config.plugin_libraries_for_type("effect").unwrap()),
        vec!["delay".to_string(), "reverb".to_string()]
    );
    assert_eq!(config.len(), 1);
}

#[test]
fn remove_returns_and_deletes() {
    let mut config = PluginManagerConfiguration::default();
    let _ = config.insert("sound", &["beep"]);
    let _ = config.insert("light", &["mood"]);
    assert_eq!(config.remove("sound").unwrap(), vec!["beep".to_string()]);
    assert!(config.remove("sound").is_none());
    assert!(!config.contains_plugin_type("sound"));
    assert!(config.contains_plugin_type("light"));
    assert_eq!(config.len(), 1);
}

#[test]
fn insert_then_remove_restores() {
    let mut config = PluginManagerConfiguration::default();
    let _ = config.insert("light", &["mood"]);
    let _ = config.insert("sound", &["beep"]);
    let _ = config.remove("sound");
    assert_eq!(config.plugin_types(), vec!["light".to_string()]);
}
