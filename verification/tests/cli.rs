use plugkit::cli::{
    cargo_toml, class_name, dev_html, lib_rs, main_tsx, makefile, package_json, panel_tsx, placeholder_html,
    check_new_plugin, qiankun_app_name, tsconfig_app, tsconfig_root, validate_name, vite_config,
};

#[test]
fn plugin_names_are_checked() {
    assert!(validate_name("afp_plugin2").is_ok());
    let e = validate_name("").unwrap_err();
    assert_eq!(e.kind(), std::io::ErrorKind::InvalidInput);
    assert_eq!(e.to_string(), "插件名不能为空");
    let e = validate_name("Afp").unwrap_err();
    assert_eq!(e.to_string(), "插件名仅允许小写字母、数字、下划线");
    assert_eq!(validate_name("My-Plugin").unwrap_err().kind(), std::io::ErrorKind::InvalidInput);
    assert!(validate_name("afp-plugin").is_err());
}

#[test]
fn new_plugin_checks() {
    assert!(check_new_plugin("demo", "/tmp/demo", false).is_ok());
    let e = check_new_plugin("demo", "/tmp/demo", true).unwrap_err();
    assert_eq!(e.kind(), std::io::ErrorKind::AlreadyExists);
    assert_eq!(e.to_string(), "目录已存在: /tmp/demo");
    let e = check_new_plugin("Bad", "/tmp/Bad", true).unwrap_err();
    assert_eq!(e.kind(), std::io::ErrorKind::InvalidInput);
}

#[test]
fn derived_names() {
    assert_eq!(class_name("afp_plugin"), "AfpPlugin");
    assert_eq!(class_name("a__b"), "AB");
    assert_eq!(class_name("x1_2y"), "X12y");
    assert_eq!(qiankun_app_name("afp_plugin"), "afp-plugin");
}

#[test]
fn cargo_manifest_names_the_plugin() {
    let t = cargo_toml("demo_plugin");
    assert!(t.starts_with("[package]\nname = \"demo_plugin\"\n"));
    assert!(!t.contains("{name}"));
    assert!(t.contains("crate-type = [\"dylib\"]"));
}

#[test]
fn library_source_names_the_type() {
    let t = lib_rs("demo_plugin");
    assert!(t.contains("pub struct DemoPlugin {"));
    assert!(t.contains("PluginMetadata::new(&self.id, \"demo_plugin\", env!(\"CARGO_PKG_VERSION\"))"));
    assert!(t.contains("\"DemoPlugin\",\n);"));
    assert!(!t.contains("{cls}"));
    assert!(!t.contains("{name}"));
}

#[test]
fn front_end_files() {
    assert!(dev_html("demo_plugin").contains("<title>Demo Plugin</title>"));
    assert!(package_json("demo_plugin").contains("\"name\": \"demo-plugin-ui\""));
    let v = vite_config("demo_plugin");
    assert!(v.contains("base: '/plugin-files/demo_plugin/ui/dist/'"));
    assert!(v.contains("qiankun('demo-plugin', { useDevMode: false })"));
    let m = main_tsx("demo_plugin");
    assert!(m.contains("const QIANKUN_APP_NAME = 'demo-plugin';"));
    assert!(m.contains("(props.pluginId as string) : 'demo_plugin'"));
    let p = panel_tsx("demo_plugin");
    assert!(p.contains("🔌 DemoPlugin 控制面板"));
    assert!(makefile("demo_plugin").contains("target/debug/libdemo_plugin.dylib"));
    assert!(placeholder_html().starts_with("<!doctype html>"));
    assert!(tsconfig_root().contains("./tsconfig.app.json"));
    assert!(tsconfig_app().contains("\"jsx\": \"preserve\""));
}
