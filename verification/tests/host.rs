use plugkit::error::{Error, ErrorKind};
use plugkit::host::{
    broadcast_targets, clean_lib_name, data_delete_sql, data_insert_sql, data_list_sql, data_update_sql,
    dylib_paths, install_message, new_plugin_ids, plugin_err_to_response, plugin_to_info, ui_content_type,
    ui_file_in, PLATFORM_DYLIB_EXTENSION, PLATFORM_DYLIB_PREFIX,
};
use plugkit::host::{disk_ui_file, find_library, install_plan, scan_dirs, unpack_failed_answer};
use plugkit::library::LibraryPlugins;
use plugkit::news::PluginMenu;
use plugkit::plugin::PluginStatus;

fn strings(v: &[&str]) -> Vec<String> {
    v.iter().map(|s| s.to_string()).collect()
}

fn menu(key: &str) -> PluginMenu {
    PluginMenu { key: key.into(), title: "T".into(), icon: None, route: None, order: 0, children: vec![] }
}

#[test]
fn library_names_lose_the_platform_prefix() {
    assert_eq!(PLATFORM_DYLIB_PREFIX, "lib");
    assert_eq!(PLATFORM_DYLIB_EXTENSION, "so");
    assert_eq!(clean_lib_name("libafp_plugin"), "afp_plugin");
    assert_eq!(clean_lib_name("afp_plugin"), "afp_plugin");
    assert_eq!(clean_lib_name("liblibx"), "libx");
    assert_eq!(clean_lib_name("li"), "li");
}

#[test]
fn menus_show_only_when_enabled_or_running() {
    let info = plugin_to_info("p", "Title".into(), "1.0".into(), true, Some("afp_plugin/ui"), vec![menu("a")], PluginStatus::Loaded);
    assert!(info.menu.is_empty());
    assert_eq!(info.ui_entry.as_deref(), Some("/plugin-files/afp_plugin/ui/dist/index.html"));
    assert_eq!(info.id, "p");
    assert_eq!(info.name, "Title");
    assert_eq!(info.version, "1.0");
    assert!(info.has_ui);
    assert_eq!(info.status, PluginStatus::Loaded);
    let info = plugin_to_info("p", "T".into(), "1".into(), false, None, vec![menu("a"), menu("b")], PluginStatus::Enabled);
    assert_eq!(info.menu.len(), 2);
    assert!(info.ui_entry.is_none());
    let info = plugin_to_info("p", "T".into(), "1".into(), false, None, vec![menu("a")], PluginStatus::Running);
    assert_eq!(info.menu[0].key, "a");
}

#[test]
fn no_ui_entry_without_a_ui() {
    let info = plugin_to_info("p", "T".into(), "1".into(), false, Some("afp_plugin/ui"), vec![], PluginStatus::Enabled);
    assert!(!info.has_ui);
    assert!(info.ui_entry.is_none());
    let info = plugin_to_info("p", "T".into(), "1".into(), true, None, vec![], PluginStatus::Enabled);
    assert!(info.ui_entry.is_none());
}

#[test]
fn plugin_errors_map_to_statuses() {
    let (code, msg) = plugin_err_to_response(&Error::from(ErrorKind::PluginNotFound("x".into())), "启用");
    assert_eq!(code, 404);
    assert_eq!(msg.message, "启用失败: Plugin 'x' not found");
    let (code, msg) = plugin_err_to_response(&Error::from(ErrorKind::InvalidPluginState("not loaded".into())), "启动");
    assert_eq!(code, 409);
    assert_eq!(msg.message, "启动失败: Invalid plugin state: not loaded");
    let (code, _) = plugin_err_to_response(&Error::from(ErrorKind::DatabaseError("x".into())), "停止");
    assert_eq!(code, 500);
}

#[test]
fn events_reach_other_active_plugins() {
    let ids = strings(&["a", "b", "c", "d"]);
    let statuses = vec![Some(PluginStatus::Enabled), Some(PluginStatus::Running), Some(PluginStatus::Loaded), None];
    assert_eq!(broadcast_targets(&ids, &statuses, "a"), strings(&["b"]));
    assert_eq!(broadcast_targets(&ids, &statuses, "z"), strings(&["a", "b"]));
}

#[test]
fn new_ids_are_those_not_seen_before() {
    assert_eq!(new_plugin_ids(&strings(&["a", "b", "c"]), &strings(&["b"])), strings(&["a", "c"]));
    assert!(new_plugin_ids(&strings(&["a"]), &strings(&["a"])).is_empty());
}

#[test]
fn ui_files_are_found_under_dist() {
    assert_eq!(ui_file_in("afp_plugin/ui/dist/assets/app.js", "afp_plugin/ui").as_deref(), Some("assets/app.js"));
    assert!(ui_file_in("other/ui/dist/index.html", "afp_plugin/ui").is_none());
}

#[test]
fn content_types() {
    assert_eq!(ui_content_type("a/b.js", false), "application/javascript; charset=utf-8");
    assert_eq!(ui_content_type("a/b.mjs", false), "application/javascript; charset=utf-8");
    assert_eq!(ui_content_type("x.css", false), "text/css; charset=utf-8");
    assert_eq!(ui_content_type("index.html", false), "text/html; charset=utf-8");
    assert_eq!(ui_content_type("m.map", false), "application/json; charset=utf-8");
    assert_eq!(ui_content_type("d.json", false), "application/json; charset=utf-8");
    assert_eq!(ui_content_type("x.png", false), "application/octet-stream");
    assert_eq!(ui_content_type("x.png", true), "image/png");
    assert_eq!(ui_content_type("index.html", true), "text/html");
    assert_eq!(ui_content_type("noext", true), "application/octet-stream");
}

#[test]
fn install_messages() {
    assert_eq!(install_message(&vec![]), "插件安装失败：未找到可加载的插件");
    assert_eq!(install_message(&strings(&["a", "b"])), "✅ 安装成功，加载了 2 个插件: a, b");
}

#[test]
fn data_statements_need_safe_table_names() {
    assert_eq!(data_list_sql("demo_items").unwrap(), "SELECT id, title, content, created_at FROM demo_items ORDER BY id DESC");
    assert_eq!(data_insert_sql("t").unwrap(), "INSERT INTO t (title, content, created_at) VALUES (?1, ?2, ?3)");
    assert_eq!(data_update_sql("t").unwrap(), "UPDATE t SET title = ?1, content = ?2 WHERE id = ?3");
    assert_eq!(data_delete_sql("t").unwrap(), "DELETE FROM t WHERE id = ?1");
    let e = data_list_sql("t; DROP TABLE x;--").unwrap_err();
    assert!(matches!(e.kind(), ErrorKind::DatabaseError(m) if m == "invalid table name: t; DROP TABLE x;--"));
    assert!(data_delete_sql("a b").is_err());
}

#[test]
fn dylibs_are_found_once_in_order() {
    let found = strings(&["/p/libb.so", "/p/readme.md", "/p/liba.so", "/p/libb.so", "/p/x.so.1", "/p/so"]);
    assert_eq!(dylib_paths(&found), strings(&["/p/libb.so", "/p/liba.so"]));
}

#[test]
fn library_records() {
    let mut libs = LibraryPlugins::new();
    assert!(!libs.is_loaded("/p/liba.so"));
    assert_eq!(libs.plugin_count("/p/liba.so"), 0);
    libs.record("/p/liba.so", strings(&["x", "y"]));
    libs.record("/p/libb.so", strings(&["z"]));
    assert!(libs.is_loaded("/p/liba.so"));
    assert_eq!(libs.plugin_count("/p/liba.so"), 2);
    assert_eq!(libs.plugins_of("/p/libb.so").unwrap(), strings(&["z"]));
    libs.record("/p/liba.so", strings(&["x"]));
    assert_eq!(libs.plugins_of("/p/liba.so").unwrap(), strings(&["x"]));
    libs.forget_plugin("z");
    assert!(!libs.is_loaded("/p/libb.so"));
    assert!(libs.plugins_of("/p/libb.so").is_none());
    libs.forget_plugin("y");
    assert_eq!(libs.plugins_of("/p/liba.so").unwrap(), strings(&["x"]));
    libs.clear();
    assert!(!libs.is_loaded("/p/liba.so"));
}

#[test]
fn install_plans_copy_each_library_into_the_install_dir() {
    let unpacked = strings(&["/tmp/x/libafp.so", "/tmp/x/ui/index.html", "/tmp/x/sub/libreuters.so"]);
    let plan = install_plan(&strings(&["plugins", "other"]), &unpacked).unwrap();
    assert_eq!(
        plan,
        vec![
            ("/tmp/x/libafp.so".to_string(), "plugins/libafp.so".to_string()),
            ("/tmp/x/sub/libreuters.so".to_string(), "plugins/libreuters.so".to_string()),
        ]
    );
    let plan = install_plan(&vec![], &strings(&["/tmp/x/libafp.so"])).unwrap();
    assert_eq!(plan, vec![("/tmp/x/libafp.so".to_string(), "bin/plugins/libafp.so".to_string())]);
    let e = install_plan(&vec![], &strings(&["/tmp/x/readme.txt"])).unwrap_err();
    assert_eq!(e, (400, ".plugin 文件中未找到 .so 动态库文件".to_string()));
    let (code, msg) = unpack_failed_answer("bad gzip");
    assert_eq!(code, 400);
    assert_eq!(msg.message, "解包失败: bad gzip — 请确认文件是有效的 .plugin (tar.gz) 格式");
}

#[test]
fn libraries_are_found_by_name() {
    let paths = strings(&["bin/plugins/libafp_plugin.so", "bin/plugins/reuters.so", "bin/plugins/libafp_plugin.so.bak"]);
    assert_eq!(find_library(&paths, "afp_plugin").unwrap(), "bin/plugins/libafp_plugin.so");
    assert_eq!(find_library(&paths, "libafp_plugin").unwrap(), "bin/plugins/libafp_plugin.so");
    assert_eq!(find_library(&paths, "reuters").unwrap(), "bin/plugins/reuters.so");
    assert_eq!(find_library(&paths, "tass").unwrap_err(), (404, "未找到插件库 'tass'".to_string()));
}

#[test]
fn disk_ui_files_stay_under_the_plugin_dir() {
    assert_eq!(disk_ui_file("/opt/app", "afp/dist/index.html").unwrap(), "/opt/app/plugin/afp/dist/index.html");
    let (code, msg) = disk_ui_file("/opt/app", "/etc/passwd").unwrap_err();
    assert_eq!(code, 403);
    assert_eq!(msg.message, "Forbidden");
    assert_eq!(disk_ui_file("/opt/app", "x/../../secret.txt").unwrap_err().0, 403);
    assert_eq!(disk_ui_file("/opt/app", "afp/../index.html").unwrap_err().0, 403);
    assert_eq!(disk_ui_file("/opt/app", "..").unwrap_err().0, 403);
    assert_eq!(disk_ui_file("/opt/app", "a..b/c").unwrap(), "/opt/app/plugin/a..b/c");
}

#[test]
fn reload_targets_follow_the_changed_file_name() {
    let mut libs = LibraryPlugins::new();
    libs.record("bin/plugins/libafp.so", strings(&["afp", "afp_b"]));
    libs.record("bin/plugins/libreuters.so", strings(&["reuters"]));
    libs.record("other/libafp.so", strings(&["afp2"]));
    assert_eq!(libs.reload_targets("/watch/libafp.so"), strings(&["afp", "afp_b", "afp2"]));
    assert_eq!(libs.reload_targets("/watch/libreuters.so"), strings(&["reuters"]));
    assert!(libs.reload_targets("/watch/libtass.so").is_empty());
}

#[test]
fn scans_look_in_the_common_dirs_first() {
    assert_eq!(scan_dirs(&strings(&["plugins"])), strings(&["target/debug", "target/release", "bin/plugin", "plugins"]));
    assert_eq!(scan_dirs(&vec![]), strings(&["target/debug", "target/release", "bin/plugin"]));
}

#[test]
fn loading_records_and_reports_new_plugins() {
    let mut libs = LibraryPlugins::new();
    assert_eq!(libs.record_loaded("bin/libafp.so", strings(&["afp"])), strings(&["afp"]));
    assert_eq!(libs.record_loaded("bin/libafp.so", strings(&["afp", "afp_b"])), strings(&["afp_b"]));
    assert_eq!(libs.plugins_of("bin/libafp.so"), Some(strings(&["afp", "afp_b"])));
    assert_eq!(libs.record_loaded("bin/libreuters.so", strings(&["afp", "afp_b", "reuters"])), strings(&["afp", "afp_b", "reuters"]));
}

#[test]
fn reloading_forgets_then_records_again() {
    let mut libs = LibraryPlugins::new();
    libs.record("bin/libafp.so", strings(&["afp", "afp_b"]));
    libs.record("bin/libreuters.so", strings(&["reuters"]));
    let targets = libs.begin_reload("/watch/libafp.so");
    assert_eq!(targets, strings(&["afp", "afp_b"]));
    assert!(!libs.is_loaded("bin/libafp.so"));
    assert!(libs.is_loaded("bin/libreuters.so"));
    assert_eq!(libs.record_loaded("bin/libafp.so", strings(&["afp", "afp_b"])), strings(&["afp", "afp_b"]));
    assert_eq!(libs.plugins_of("bin/libafp.so"), Some(strings(&["afp", "afp_b"])));
}
