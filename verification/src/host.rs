//! The logic of the plugin host: library names, the plugin information shown to the
//! front end, error answers, event broadcast targets, and the bookkeeping of which
//! library contributed which plugins.

use vstd::prelude::*;
use crate::error::{Error, ErrorKind, kind_text, kind_status};
use crate::news::PluginMenu;
use crate::plugin::{PluginStatus, menu_visible};
use crate::text::{strip_prefix, without_prefix, two, three, same_text, contains_text, split_text, split_on};

verus! {

/// The file-name prefix of dynamic libraries on this platform.
pub const PLATFORM_DYLIB_PREFIX: &'static str = "lib";

/// The file-name extension of dynamic libraries on this platform.
pub const PLATFORM_DYLIB_EXTENSION: &'static str = "so";

/// Information about a plugin library found on disk.
#[derive(Debug)]
pub struct LibraryInfo {
    /// Library name without the platform prefix.
    pub name: String,
    /// File name.
    pub file_name: String,
    /// Full path.
    pub path: String,
    /// Whether it is loaded.
    pub loaded: bool,
    /// Number of plugins it contributed.
    pub plugin_count: usize,
}

/// The libraries found by a scan.
#[derive(Debug)]
pub struct LibraryScanResult {
    /// The libraries.
    pub libraries: Vec<LibraryInfo>,
}

/// The plugins added by loading a library.
#[derive(Debug)]
pub struct LoadResult {
    /// The new plugins.
    pub plugins: Vec<PluginInfo>,
}

/// A message answer.
#[derive(Debug)]
pub struct ApiMessage {
    /// The message.
    pub message: String,
}

/// A plugin's scheduled task.
#[derive(Debug)]
pub struct CronInfo {
    /// Task name.
    pub name: String,
    /// Interval in seconds.
    pub interval_secs: u64,
    /// Whether it is running.
    pub running: bool,
}

/// A request to run a scheduled task now.
#[derive(Debug)]
pub struct CronRunRequest {
    /// Task name.
    pub name: String,
}

/// A plugin as the front end sees it.
#[derive(Debug)]
pub struct PluginInfo {
    /// Plugin id.
    pub id: String,
    /// Display name.
    pub name: String,
    /// Version.
    pub version: String,
    /// Whether it embeds a UI.
    pub has_ui: bool,
    /// Entry URL of its UI: `None` when it has no UI.
    pub ui_entry: Option<String>,
    /// Its menus (only while it is enabled or running).
    pub menu: Vec<PluginMenu>,
    /// Its lifecycle state.
    pub status: PluginStatus,
}

/// A data record to create or update.
#[derive(Debug)]
pub struct DataPayload {
    /// Title.
    pub title: String,
    /// Content.
    pub content: String,
}

/// A library file stem without the platform's `lib` prefix.
pub open spec fn clean_name(stem: Seq<char>) -> Seq<char> {
    match without_prefix(stem, PLATFORM_DYLIB_PREFIX@) {
        Some(rest) => rest,
        None => stem,
    }
}

/// Removes the platform's `lib` prefix from a library file stem, when it has one.
pub fn clean_lib_name(file_stem: &str) -> (r: String)
    ensures
        r@ == clean_name(file_stem@),
{
    match strip_prefix(file_stem, PLATFORM_DYLIB_PREFIX) {
        Some(rest) => rest,
        None => String::from_str(file_stem),
    }
}

/// The entry URL of a plugin UI that lives under `base_dir`.
pub open spec fn ui_entry_url(base_dir: Seq<char>) -> Seq<char> {
    "/plugin-files/"@ + base_dir + "/dist/index.html"@
}

/// The front-end view of a plugin from its id, metadata title and version, UI facts,
/// menus and state. The menus are shown only while the plugin is enabled or running;
/// the UI entry URL is given when the plugin has a UI and declares its base directory.
pub fn plugin_to_info(
    id: &str,
    title: String,
    version: String,
    has_ui: bool,
    ui_base_dir: Option<&str>,
    menus: Vec<PluginMenu>,
    status: PluginStatus,
) -> (r: PluginInfo)
    ensures
        r.id@ == id@,
        r.name == title,
        r.version == version,
        r.has_ui == has_ui,
        match ui_base_dir {
            Some(d) if has_ui => r.ui_entry matches Some(u) && u@ == ui_entry_url(d@),
            _ => r.ui_entry is None,
        },
        r.menu@ == if menu_visible(status) { menus@ } else { Seq::<PluginMenu>::empty() },
        r.status == status,
{
    let ui_entry = match ui_base_dir {
        Some(d) if has_ui => Some(three("/plugin-files/", d, "/dist/index.html")),
        _ => None,
    };
    let menu = if status.shows_menu() { menus } else { Vec::new() };
    PluginInfo {
        id: String::from_str(id),
        name: title,
        version,
        has_ui,
        ui_entry,
        menu,
        status,
    }
}

/// The answer to a failed plugin operation: 404 when the plugin is missing, 409 on a
/// state conflict, 500 otherwise, with the message "<action>失败: <error text>".
pub fn plugin_err_to_response(e: &Error, action: &str) -> (r: (u16, ApiMessage))
    ensures
        r.0 == kind_status(e.kind_of()),
        r.1.message@ == action@ + "失败: "@ + kind_text(e.kind_of()),
{
    let code: u16 = match e.kind() {
        ErrorKind::PluginNotFound(_) => 404,
        ErrorKind::InvalidPluginState(_) => 409,
        _ => 500,
    };
    let text = e.text();
    (code, ApiMessage { message: three(action, "失败: ", text.as_str()) })
}

/// The plugins that receive an event published by `source`: every other plugin that is
/// enabled or running, in order.
pub open spec fn event_targets(ids: Seq<String>, statuses: Seq<Option<PluginStatus>>, source: Seq<char>) -> Seq<Seq<char>>
    decreases ids.len(),
{
    if ids.len() == 0 {
        Seq::<Seq<char>>::empty()
    } else {
        let rest = event_targets(ids.drop_last(), statuses.drop_last(), source);
        let s = statuses.last();
        if ids.last()@ != source && (s matches Some(st) && menu_visible(st)) {
            rest.push(ids.last()@)
        } else {
            rest
        }
    }
}

/// The ids of the plugins that receive an event published by `source`, given each
/// loaded plugin's id and state: the others that are enabled or running, in order.
pub fn broadcast_targets(ids: &Vec<String>, statuses: &Vec<Option<PluginStatus>>, source: &str) -> (r: Vec<String>)
    requires
        ids@.len() == statuses@.len(),
    ensures
        r@.len() == event_targets(ids@, statuses@, source@).len(),
        forall|i: int| 0 <= i < r@.len() ==> #[trigger] r@[i]@ == event_targets(ids@, statuses@, source@)[i],
{
    let mut r: Vec<String> = Vec::new();
    let mut i: usize = 0;
    while i < ids.len()
        invariant
            ids@.len() == statuses@.len(),
            i <= ids@.len(),
            r@.len() == event_targets(ids@.take(i as int), statuses@.take(i as int), source@).len(),
            forall|k: int| 0 <= k < r@.len()
                ==> #[trigger] r@[k]@ == event_targets(ids@.take(i as int), statuses@.take(i as int), source@)[k],
        decreases ids@.len() - i,
    {
        proof {
            assert(ids@.take(i + 1).drop_last() =~= ids@.take(i as int));
            assert(statuses@.take(i + 1).drop_last() =~= statuses@.take(i as int));
        }
        let other = !same_text(ids[i].as_str(), source);
        let active = match statuses[i] {
            Some(st) => st.shows_menu(),
            None => false,
        };
        if other && active {
            r.push(ids[i].clone());
        }
        i = i + 1;
    }
    proof {
        assert(ids@.take(ids@.len() as int) =~= ids@);
        assert(statuses@.take(statuses@.len() as int) =~= statuses@);
    }
    r
}

/// Some plugin with this id is enabled or running.
pub open spec fn active_plugin(ids: Seq<String>, statuses: Seq<Option<PluginStatus>>, id: Seq<char>) -> bool {
    exists|j: int| 0 <= j < ids.len() && #[trigger] ids[j]@ == id && (statuses[j] matches Some(st) && menu_visible(st))
}

/// An event is never delivered back to the plugin that published it, is delivered only to
/// plugins that are enabled or running, and reaches every other plugin that is enabled or
/// running, wherever it stands among the loaded plugins.
pub proof fn lemma_event_targets(ids: Seq<String>, statuses: Seq<Option<PluginStatus>>, source: Seq<char>)
    requires
        ids.len() == statuses.len(),
    ensures
        forall|k: int| 0 <= k < event_targets(ids, statuses, source).len()
            ==> #[trigger] event_targets(ids, statuses, source)[k] != source,
        forall|k: int| 0 <= k < event_targets(ids, statuses, source).len()
            ==> active_plugin(ids, statuses, #[trigger] event_targets(ids, statuses, source)[k]),
        forall|j: int| 0 <= j < ids.len() && #[trigger] ids[j]@ != source
            && (statuses[j] matches Some(st) && (st is Enabled || st is Running))
            ==> event_targets(ids, statuses, source).contains(ids[j]@),
        event_targets(ids, statuses, source).len() <= ids.len(),
        (forall|a: int, b: int| 0 <= a < b < ids.len() ==> #[trigger] ids[a]@ != #[trigger] ids[b]@) ==>
            (forall|a: int, b: int| 0 <= a < b < event_targets(ids, statuses, source).len()
                ==> #[trigger] event_targets(ids, statuses, source)[a] != #[trigger] event_targets(ids, statuses, source)[b]),
    decreases ids.len(),
{
    if ids.len() > 0 {
        let ids0 = ids.drop_last();
        let st0 = statuses.drop_last();
        lemma_event_targets(ids0, st0, source);
        let rest = event_targets(ids0, st0, source);
        let t = event_targets(ids, statuses, source);
        assert forall|k: int| 0 <= k < t.len() implies active_plugin(ids, statuses, #[trigger] t[k]) by {
            if k < rest.len() {
                assert(active_plugin(ids0, st0, rest[k]));
                let j = choose|j: int| 0 <= j < ids0.len() && #[trigger] ids0[j]@ == rest[k]
                    && (st0[j] matches Some(st) && menu_visible(st));
                assert(ids[j] == ids0[j] && statuses[j] == st0[j]);
            } else {
                assert(ids[ids.len() - 1]@ == t[k]);
            }
        }
        if forall|a: int, b: int| 0 <= a < b < ids.len() ==> #[trigger] ids[a]@ != #[trigger] ids[b]@ {
            assert forall|a: int, b: int| 0 <= a < b < ids0.len() implies #[trigger] ids0[a]@ != #[trigger] ids0[b]@ by {
                assert(ids0[a] == ids[a] && ids0[b] == ids[b]);
            }
            assert forall|a: int, b: int| 0 <= a < b < t.len() implies #[trigger] t[a] != #[trigger] t[b] by {
                if b == rest.len() {
                    assert(active_plugin(ids0, st0, rest[a]));
                    let j = choose|j: int| 0 <= j < ids0.len() && #[trigger] ids0[j]@ == rest[a]
                        && (st0[j] matches Some(st) && menu_visible(st));
                    assert(ids[j] == ids0[j]);
                    assert(t[b] == ids[ids.len() - 1]@);
                    assert(ids[j]@ != ids[ids.len() - 1]@);
                } else {
                    assert(t[a] == rest[a] && t[b] == rest[b]);
                }
            }
        }
        assert forall|j: int| 0 <= j < ids.len() && #[trigger] ids[j]@ != source
            && (statuses[j] matches Some(st) && (st is Enabled || st is Running))
            implies t.contains(ids[j]@) by {
            if j < ids.len() - 1 {
                assert(ids0[j] == ids[j] && st0[j] == statuses[j]);
                assert(rest.contains(ids[j]@));
                let k = choose|k: int| 0 <= k < rest.len() && rest[k] == ids[j]@;
                if t != rest {
                    assert(t[k] == rest[k]);
                }
            } else {
                assert(t.last() == ids[j]@);
                assert(t[t.len() - 1] == ids[j]@);
            }
        }
    }
}

/// The ids of `all` that `existing` does not hold, in order: the plugins that loading a
/// library added.
pub open spec fn added_ids(all: Seq<String>, existing: Seq<String>) -> Seq<Seq<char>>
    decreases all.len(),
{
    if all.len() == 0 {
        Seq::<Seq<char>>::empty()
    } else {
        let rest = added_ids(all.drop_last(), existing);
        if crate::auth::principal::holds_text(existing, all.last()@) {
            rest
        } else {
            rest.push(all.last()@)
        }
    }
}

/// The ids of `all` that `existing` does not hold, in order.
pub fn new_plugin_ids(all: &Vec<String>, existing: &Vec<String>) -> (r: Vec<String>)
    ensures
        r@.len() == added_ids(all@, existing@).len(),
        forall|i: int| 0 <= i < r@.len() ==> #[trigger] r@[i]@ == added_ids(all@, existing@)[i],
{
    let mut r: Vec<String> = Vec::new();
    let mut i: usize = 0;
    while i < all.len()
        invariant
            i <= all@.len(),
            r@.len() == added_ids(all@.take(i as int), existing@).len(),
            forall|k: int| 0 <= k < r@.len() ==> #[trigger] r@[k]@ == added_ids(all@.take(i as int), existing@)[k],
        decreases all@.len() - i,
    {
        proof {
            assert(all@.take(i + 1).drop_last() =~= all@.take(i as int));
        }
        if !contains_text(existing, all[i].as_str()) {
            r.push(all[i].clone());
        }
        i = i + 1;
    }
    proof {
        assert(all@.take(all@.len() as int) =~= all@);
    }
    r
}

/// The path of a file inside a plugin UI's `dist` directory: what follows
/// `"<base_dir>/dist/"` in the requested path.
pub open spec fn ui_file_path(path: Seq<char>, base_dir: Seq<char>) -> Option<Seq<char>> {
    without_prefix(path, base_dir + "/dist/"@)
}

/// The file, inside the `dist` directory of the plugin UI under `base_dir`, that a
/// request path names; `None` when the path is not under that directory.
pub fn ui_file_in(path: &str, base_dir: &str) -> (r: Option<String>)
    ensures
        match ui_file_path(path@, base_dir@) {
            Some(t) => r matches Some(x) && x@ == t,
            None => r is None,
        },
{
    let prefix = two(base_dir, "/dist/");
    strip_prefix(path, prefix.as_str())
}

/// A string ends with the suffix `p`.
pub open spec fn has_suffix(s: Seq<char>, p: Seq<char>) -> bool {
    p.len() <= s.len() && s.skip(s.len() - p.len()) == p
}

fn ends_with(s: &str, p: &str) -> (r: bool)
    ensures
        r == has_suffix(s@, p@),
{
    let n = s.unicode_len();
    let m = p.unicode_len();
    if m > n {
        return false;
    }
    proof {
        assert(s@.skip(n - m) =~= s@.subrange(n - m, n as int));
    }
    same_text(s.substring_char(n - m, n), p)
}

/// The content type of a plugin UI file read from disk, by its extension.
pub open spec fn disk_content_type(path: Seq<char>) -> Seq<char> {
    if has_suffix(path, ".js"@) || has_suffix(path, ".mjs"@) {
        "application/javascript; charset=utf-8"@
    } else if has_suffix(path, ".css"@) {
        "text/css; charset=utf-8"@
    } else if has_suffix(path, ".html"@) {
        "text/html; charset=utf-8"@
    } else if has_suffix(path, ".json"@) || has_suffix(path, ".map"@) {
        "application/json; charset=utf-8"@
    } else {
        "application/octet-stream"@
    }
}

/// The MIME type that `mime_guess` gives a path: the first guess from its extension, or
/// `application/octet-stream`.
pub uninterp spec fn guessed_mime(path: Seq<char>) -> Seq<char>;

/// `mime_guess::from_path(path).first_or_octet_stream().to_string()`: the MIME type guessed
/// from the path's extension, or `application/octet-stream`; a function of the path alone.
#[verifier::external_body]
fn mime_from_path(path: &str) -> (r: String)
    ensures
        r@ == guessed_mime(path@),
{
    mime_guess::from_path(path).first_or_octet_stream().to_string()
}

/// The content type of a plugin UI file: guessed from its extension when it is served from
/// the plugin's embedded directory, and from a fixed table when it is read from disk.
pub fn ui_content_type(path: &str, embedded: bool) -> (r: String)
    ensures
        embedded ==> r@ == guessed_mime(path@),
        !embedded ==> r@ == disk_content_type(path@),
{
    if embedded {
        mime_from_path(path)
    } else if ends_with(path, ".js") || ends_with(path, ".mjs") {
        String::from_str("application/javascript; charset=utf-8")
    } else if ends_with(path, ".css") {
        String::from_str("text/css; charset=utf-8")
    } else if ends_with(path, ".html") {
        String::from_str("text/html; charset=utf-8")
    } else if ends_with(path, ".json") || ends_with(path, ".map") {
        String::from_str("application/json; charset=utf-8")
    } else {
        String::from_str("application/octet-stream")
    }
}

/// The answer message of a plugin installation: a failure message when nothing was
/// loaded, otherwise the count and the ids of the loaded plugins.
pub open spec fn install_text(loaded: Seq<Seq<char>>) -> Seq<char> {
    if loaded.len() == 0 {
        "插件安装失败：未找到可加载的插件"@
    } else {
        "✅ 安装成功，加载了 "@ + crate::text::decimal(loaded.len() as int) + " 个插件: "@
            + crate::cli::joined(loaded, ", "@)
    }
}

/// The answer message of a plugin installation, given the ids of the plugins loaded.
pub fn install_message(loaded: &Vec<String>) -> (r: String)
    ensures
        r@ == install_text(loaded@.map_values(|s: String| s@)),
{
    let ghost ids = loaded@.map_values(|s: String| s@);
    if loaded.len() == 0 {
        return String::from_str("插件安装失败：未找到可加载的插件");
    }
    let mut list = String::new();
    let mut i: usize = 0;
    while i < loaded.len()
        invariant
            ids == loaded@.map_values(|s: String| s@),
            i <= loaded@.len(),
            list@ == crate::cli::joined(ids.take(i as int), ", "@),
        decreases loaded@.len() - i,
    {
        if i > 0 {
            list.append(", ");
        }
        list.append(loaded[i].as_str());
        proof {
            assert(ids.take(i + 1).drop_last() =~= ids.take(i as int));
            if i == 0 {
                assert(ids.take(1) =~= seq![ids[0]]);
            }
        }
        i = i + 1;
    }
    proof {
        assert(ids.take(loaded@.len() as int) =~= ids);
    }
    let count = crate::text::usize_text(loaded.len());
    let mut msg = three("✅ 安装成功，加载了 ", count.as_str(), " 个插件: ");
    msg.append(list.as_str());
    msg
}

/// The statement that lists the records of a data table, newest first.
pub open spec fn list_sql(table: Seq<char>) -> Seq<char> {
    "SELECT id, title, content, created_at FROM "@ + table + " ORDER BY id DESC"@
}

/// The statement that inserts a record (title, content, creation time) into a data table.
pub open spec fn insert_sql(table: Seq<char>) -> Seq<char> {
    "INSERT INTO "@ + table + " (title, content, created_at) VALUES (?1, ?2, ?3)"@
}

/// The statement that updates a record's title and content by id.
pub open spec fn update_sql(table: Seq<char>) -> Seq<char> {
    "UPDATE "@ + table + " SET title = ?1, content = ?2 WHERE id = ?3"@
}

/// The statement that deletes a record by id.
pub open spec fn delete_sql(table: Seq<char>) -> Seq<char> {
    "DELETE FROM "@ + table + " WHERE id = ?1"@
}

/// The statement listing a data table, once the table name is checked safe; the
/// name check's error otherwise.
pub fn data_list_sql(table: &str) -> (r: Result<String, Error>)
    ensures
        r is Ok <==> crate::database::safe_table_name(table@),
        r matches Ok(s) ==> s@ == list_sql(table@),
{
    match crate::database::validate_table_name(table) {
        Ok(()) => Ok(three("SELECT id, title, content, created_at FROM ", table, " ORDER BY id DESC")),
        Err(e) => Err(e),
    }
}

/// The statement inserting into a data table, once the table name is checked safe.
pub fn data_insert_sql(table: &str) -> (r: Result<String, Error>)
    ensures
        r is Ok <==> crate::database::safe_table_name(table@),
        r matches Ok(s) ==> s@ == insert_sql(table@),
{
    match crate::database::validate_table_name(table) {
        Ok(()) => Ok(three("INSERT INTO ", table, " (title, content, created_at) VALUES (?1, ?2, ?3)")),
        Err(e) => Err(e),
    }
}

/// The statement updating a data table, once the table name is checked safe.
pub fn data_update_sql(table: &str) -> (r: Result<String, Error>)
    ensures
        r is Ok <==> crate::database::safe_table_name(table@),
        r matches Ok(s) ==> s@ == update_sql(table@),
{
    match crate::database::validate_table_name(table) {
        Ok(()) => Ok(three("UPDATE ", table, " SET title = ?1, content = ?2 WHERE id = ?3")),
        Err(e) => Err(e),
    }
}

/// The statement deleting from a data table, once the table name is checked safe.
pub fn data_delete_sql(table: &str) -> (r: Result<String, Error>)
    ensures
        r is Ok <==> crate::database::safe_table_name(table@),
        r matches Ok(s) ==> s@ == delete_sql(table@),
{
    match crate::database::validate_table_name(table) {
        Ok(()) => Ok(three("DELETE FROM ", table, " WHERE id = ?1")),
        Err(e) => Err(e),
    }
}

/// What a plugin may ask of its host: identity, logging, time, the number of plugins,
/// publishing events and, where the host has one, its database. The host implements it.
pub trait HostContext: Send + Sync {
    /// Host server name.
    fn server_name(&self) -> &str;
    /// Host version.
    fn server_version(&self) -> &str;
    /// Writes a message to the host log.
    fn log_message(&self, msg: &str);
    /// Writes a message at a level: logs `"[<level>] <msg>"`.
    fn log(&self, level: &str, msg: &str) {
        let formatted = crate::text::four("[", level, "] ", msg);
        self.log_message(formatted.as_str());
    }
    /// Current server time, formatted.
    fn server_time(&self) -> String;
    /// Number of plugins loaded.
    fn plugin_count(&self) -> usize;
    /// Publishes an event; the host delivers it to the other enabled or running plugins.
    fn emit(&self, topic: &str, payload: serde_json::Value);
}

/// The extension of a path's file name, as `Path::extension` finds it.
pub uninterp spec fn extension_of(path: Seq<char>) -> Option<Seq<char>>;

/// `std::path::Path::new(path).extension()`, as text: the part of the file name after its
/// last `.`, if any; a function of the path alone. The extension is taken from the file
/// name, so a path with an extension has a file name.
#[verifier::external_body]
fn path_extension(path: &str) -> (r: Option<String>)
    ensures
        match extension_of(path@) {
            Some(e) => r matches Some(x) && x@ == e,
            None => r is None,
        },
        r is Some ==> file_name_of(path@) is Some,
{
    std::path::Path::new(path).extension().map(|e| e.to_string_lossy().to_string())
}

/// Whether a file path names a dynamic library of this platform.
pub open spec fn is_dylib(path: Seq<char>) -> bool {
    extension_of(path) == Some(PLATFORM_DYLIB_EXTENSION@)
}

/// The directories that a library scan always looks in, before the configured ones.
pub open spec fn default_scan_dirs() -> Seq<Seq<char>> {
    seq!["target/debug"@, "target/release"@, "bin/plugin"@]
}

/// The directories a library scan walks: the common build and install directories
/// (`target/debug`, `target/release`, `bin/plugin`), then the configured search
/// directories, in order.
pub fn scan_dirs(extra_dirs: &Vec<String>) -> (r: Vec<String>)
    ensures
        crate::library::texts(r@) == default_scan_dirs() + crate::library::texts(extra_dirs@),
{
    let mut r: Vec<String> = Vec::new();
    r.push(String::from_str("target/debug"));
    r.push(String::from_str("target/release"));
    r.push(String::from_str("bin/plugin"));
    let ghost start = crate::library::texts(r@);
    assert(start =~= default_scan_dirs());
    let mut i: usize = 0;
    while i < extra_dirs.len()
        invariant
            i <= extra_dirs@.len(),
            crate::library::texts(r@) == default_scan_dirs() + crate::library::texts(extra_dirs@).take(i as int),
        decreases extra_dirs@.len() - i,
    {
        let ghost before = r@;
        let d = extra_dirs[i].clone();
        r.push(d);
        assert(crate::library::texts(r@) =~= crate::library::texts(before).push(extra_dirs@[i as int]@));
        assert(crate::library::texts(extra_dirs@).take(i + 1) =~= crate::library::texts(extra_dirs@).take(i as int).push(extra_dirs@[i as int]@));
        i = i + 1;
    }
    assert(crate::library::texts(extra_dirs@).take(extra_dirs@.len() as int) =~= crate::library::texts(extra_dirs@));
    r
}

/// The dynamic libraries among file paths found by a scan: the paths with the platform's
/// library extension, each once, in the order first found.
pub open spec fn dylibs_among(found: Seq<Seq<char>>) -> Seq<Seq<char>>
    decreases found.len(),
{
    if found.len() == 0 {
        Seq::<Seq<char>>::empty()
    } else {
        let rest = dylibs_among(found.drop_last());
        let p = found.last();
        if is_dylib(p) && !rest.contains(p) {
            rest.push(p)
        } else {
            rest
        }
    }
}

/// The dynamic libraries among file paths found by a scan: those with the platform's
/// library extension, each once, in the order first found.
pub fn dylib_paths(found: &Vec<String>) -> (r: Vec<String>)
    ensures
        crate::library::texts(r@) == dylibs_among(crate::library::texts(found@)),
        forall|k: int| 0 <= k < r@.len() ==> file_name_of(#[trigger] r@[k]@) is Some,
{
    let ghost t = crate::library::texts(found@);
    let mut r: Vec<String> = Vec::new();
    let mut i: usize = 0;
    while i < found.len()
        invariant
            t == crate::library::texts(found@),
            i <= found@.len(),
            crate::library::texts(r@) == dylibs_among(t.take(i as int)),
            forall|k: int| 0 <= k < r@.len() ==> file_name_of(#[trigger] r@[k]@) is Some,
        decreases found@.len() - i,
    {
        proof {
            assert(t.take(i + 1).drop_last() =~= t.take(i as int));
            assert(t.take(i + 1).last() == found@[i as int]@);
        }
        let p = found[i].as_str();
        let dylib = match path_extension(p) {
            Some(e) => same_text(e.as_str(), PLATFORM_DYLIB_EXTENSION),
            None => false,
        };
        if dylib && !contains_text(&r, p) {
            proof {
                let rt = crate::library::texts(r@);
                assert forall|x: Seq<char>| rt.contains(x) implies (exists|k: int| 0 <= k < r@.len() && #[trigger] r@[k]@ == x) by {
                    let k = choose|k: int| 0 <= k < rt.len() && rt[k] == x;
                    assert(r@[k]@ == x);
                }
            }
            r.push(found[i].clone());
            proof {
                assert(crate::library::texts(r@) =~= dylibs_among(t.take(i as int)).push(p@));
            }
        } else {
            proof {
                if dylib {
                    let k = choose|k: int| 0 <= k < r@.len() && #[trigger] r@[k]@ == p@;
                    assert(crate::library::texts(r@)[k] == p@);
                }
            }
        }
        i = i + 1;
    }
    proof { assert(t.take(found@.len() as int) =~= t); }
    r
}

/// The final component of a path, as `Path::file_name` finds it.
pub uninterp spec fn file_name_of(path: Seq<char>) -> Option<Seq<char>>;

/// `std::path::Path::new(path).file_name()`, as text: the final component of the path, or
/// `None` when it ends in `..`; a function of the path alone.
#[verifier::external_body]
pub(crate) fn path_file_name(path: &str) -> (r: Option<String>)
    ensures
        match file_name_of(path@) {
            Some(n) => r matches Some(x) && x@ == n,
            None => r is None,
        },
{
    std::path::Path::new(path).file_name().map(|n| n.to_string_lossy().to_string())
}

/// The path that `Path::join` makes of a directory and a name.
pub uninterp spec fn joined_path(dir: Seq<char>, name: Seq<char>) -> Seq<char>;

/// `std::path::Path::new(dir).join(name)`, as text; a function of its two arguments alone.
#[verifier::external_body]
fn path_join(dir: &str, name: &str) -> (r: String)
    ensures
        r@ == joined_path(dir@, name@),
{
    std::path::Path::new(dir).join(name).to_string_lossy().to_string()
}

/// The directory that an uploaded plugin is installed into: the first plugin search
/// directory, or `bin/plugins` when there is none.
pub open spec fn install_dir(search_dirs: Seq<Seq<char>>) -> Seq<char> {
    if search_dirs.len() == 0 { "bin/plugins"@ } else { search_dirs[0] }
}

/// The answer when an uploaded archive holds no library of this platform.
pub open spec fn no_library_text() -> Seq<char> {
    ".plugin 文件中未找到 ."@ + PLATFORM_DYLIB_EXTENSION@ + " 动态库文件"@
}

/// The copies that installing an uploaded plugin makes, given the plugin search directories
/// and the files unpacked from the archive: each library among the unpacked files (see
/// [`dylibs_among`]) goes to the install directory under its own file name, in order;
/// a 400 answer when there is no library.
pub fn install_plan(search_dirs: &Vec<String>, unpacked: &Vec<String>) -> (r: Result<Vec<(String, String)>, (u16, String)>)
    ensures
        dylibs_among(crate::library::texts(unpacked@)).len() == 0 <==> r is Err,
        r matches Err(e) ==> e.0 == 400 && e.1@ == no_library_text(),
        r matches Ok(v) ==> {
            let libs = dylibs_among(crate::library::texts(unpacked@));
            &&& v@.len() == libs.len()
            &&& forall|i: int| 0 <= i < v@.len() ==> {
                &&& (#[trigger] v@[i]).0@ == libs[i]
                &&& file_name_of(libs[i]) matches Some(n) && v@[i].1@ == joined_path(install_dir(crate::library::texts(search_dirs@)), n)
            }
        },
{
    let libs = dylib_paths(unpacked);
    if libs.len() == 0 {
        return Err((400, three(".plugin 文件中未找到 .", PLATFORM_DYLIB_EXTENSION, " 动态库文件")));
    }
    let dir: String = if search_dirs.len() == 0 {
        String::from_str("bin/plugins")
    } else {
        search_dirs[0].clone()
    };
    let ghost lv = crate::library::texts(libs@);
    proof {
        if search_dirs@.len() > 0 {
            assert(crate::library::texts(search_dirs@)[0] == search_dirs@[0]@);
        }
    }
    let mut v: Vec<(String, String)> = Vec::new();
    let mut i: usize = 0;
    while i < libs.len()
        invariant
            lv == crate::library::texts(libs@),
            lv == dylibs_among(crate::library::texts(unpacked@)),
            forall|k: int| 0 <= k < libs@.len() ==> file_name_of(#[trigger] libs@[k]@) is Some,
            dir@ == install_dir(crate::library::texts(search_dirs@)),
            i <= libs@.len(),
            v@.len() == i,
            forall|k: int| 0 <= k < i ==> {
                &&& (#[trigger] v@[k]).0@ == lv[k]
                &&& file_name_of(lv[k]) matches Some(n) && v@[k].1@ == joined_path(dir@, n)
            },
        decreases libs@.len() - i,
    {
        let src = libs[i].as_str();
        assert(lv[i as int] == src@);
        assert(file_name_of(libs@[i as int]@) is Some);
        let name = match path_file_name(src) {
            Some(n) => n,
            None => { assert(false); String::new() },
        };
        let dest = path_join(dir.as_str(), name.as_str());
        v.push((libs[i].clone(), dest));
        i = i + 1;
    }
    Ok(v)
}

/// The answer when an uploaded archive cannot be unpacked: 400, naming the unpacking error.
pub fn unpack_failed_answer(error: &str) -> (r: (u16, ApiMessage))
    ensures
        r.0 == 400,
        r.1.message@ == "解包失败: "@ + error@ + " — 请确认文件是有效的 .plugin (tar.gz) 格式"@,
{
    (400, ApiMessage { message: three("解包失败: ", error, " — 请确认文件是有效的 .plugin (tar.gz) 格式") })
}

/// The file name of a path without its extension, as `Path::file_stem` finds it.
pub uninterp spec fn file_stem_of(path: Seq<char>) -> Option<Seq<char>>;

/// `std::path::Path::new(path).file_stem()`, as text: the file name without its last
/// extension, or `None` when there is no file name; a function of the path alone.
#[verifier::external_body]
fn path_file_stem(path: &str) -> (r: Option<String>)
    ensures
        match file_stem_of(path@) {
            Some(n) => r matches Some(x) && x@ == n,
            None => r is None,
        },
{
    std::path::Path::new(path).file_stem().map(|n| n.to_string_lossy().to_string())
}

/// Whether the library at `path` is the one called `name`: its file stem is `name`, with
/// or without the platform's `lib` prefix.
pub open spec fn names_library(path: Seq<char>, name: Seq<char>) -> bool {
    file_stem_of(path) matches Some(stem) && (stem == name || clean_name(stem) == name)
}

/// The library that a load request names: the first of the found library paths whose
/// file stem, with or without the `lib` prefix, is `name`; a 404 answer
/// ("未找到插件库 '<name>'") when there is none.
pub fn find_library(paths: &Vec<String>, name: &str) -> (r: Result<String, (u16, String)>)
    ensures
        match r {
            Ok(p) => exists|i: int| 0 <= i < paths@.len() && paths@[i]@ == p@
                && names_library(p@, name@)
                && forall|j: int| 0 <= j < i ==> !names_library(#[trigger] paths@[j]@, name@),
            Err(e) => e.0 == 404 && e.1@ == "未找到插件库 '"@ + name@ + "'"@
                && forall|j: int| 0 <= j < paths@.len() ==> !names_library(#[trigger] paths@[j]@, name@),
        },
{
    let mut i: usize = 0;
    while i < paths.len()
        invariant
            i <= paths@.len(),
            forall|j: int| 0 <= j < i ==> !names_library(#[trigger] paths@[j]@, name@),
        decreases paths@.len() - i,
    {
        let hit = match path_file_stem(paths[i].as_str()) {
            Some(stem) => {
                let cleaned = clean_lib_name(stem.as_str());
                same_text(stem.as_str(), name) || same_text(cleaned.as_str(), name)
            },
            None => false,
        };
        if hit {
            return Ok(paths[i].clone());
        }
        i = i + 1;
    }
    Err((404, three("未找到插件库 '", name, "'")))
}

/// Whether a path starts with a base path, component by component, as
/// `Path::starts_with` decides.
pub uninterp spec fn path_starts_with(path: Seq<char>, base: Seq<char>) -> bool;

/// `std::path::Path::new(path).starts_with(base)`: whether the base's components are a
/// prefix of the path's components; a function of the two paths alone.
#[verifier::external_body]
fn path_has_prefix(path: &str, base: &str) -> (r: bool)
    ensures
        r == path_starts_with(path@, base@),
{
    std::path::Path::new(path).starts_with(base)
}

/// A request path that cannot leave the directory it is joined to: it is not absolute
/// (does not start with `/`) and none of its `/`-separated components is `..`.
pub open spec fn stays_inside(path: Seq<char>) -> bool {
    &&& !(path.len() > 0 && path[0] == '/')
    &&& forall|i: int| 0 <= i < split_on(path, '/').len() ==> #[trigger] split_on(path, '/')[i] != ".."@
}

/// The file on disk that serves a plugin UI request when no embedded UI holds it:
/// `<exe_dir>/plugin/<path>`. A path that could escape the plugin directory (absolute, or
/// with a `..` component), or whose joined file does not start with `<exe_dir>/plugin`, is
/// refused with 403 "Forbidden".
pub fn disk_ui_file(exe_dir: &str, path: &str) -> (r: Result<String, (u16, ApiMessage)>)
    ensures
        ({
            let root = joined_path(exe_dir@, "plugin"@);
            let file = joined_path(root, path@);
            &&& r is Ok <==> stays_inside(path@) && path_starts_with(file, root)
            &&& r matches Ok(f) ==> f@ == file
            &&& r matches Err(e) ==> e.0 == 403 && e.1.message@ == "Forbidden"@
        }),
{
    let forbidden = (403u16, ApiMessage { message: String::from_str("Forbidden") });
    if path.unicode_len() > 0 && path.get_char(0) == '/' {
        return Err(forbidden);
    }
    let parts = split_text(path, '/');
    let mut i: usize = 0;
    while i < parts.len()
        invariant
            parts@.len() == split_on(path@, '/').len(),
            forall|k: int| 0 <= k < parts@.len() ==> #[trigger] parts@[k]@ == split_on(path@, '/')[k],
            i <= parts@.len(),
            forall|k: int| 0 <= k < i ==> #[trigger] split_on(path@, '/')[k] != ".."@,
            forbidden.0 == 403 && forbidden.1.message@ == "Forbidden"@,
        decreases parts@.len() - i,
    {
        if same_text(parts[i].as_str(), "..") {
            assert(split_on(path@, '/')[i as int] == ".."@);
            return Err(forbidden);
        }
        i = i + 1;
    }
    let root = path_join(exe_dir, "plugin");
    let file = path_join(root.as_str(), path);
    if path_has_prefix(file.as_str(), root.as_str()) {
        Ok(file)
    } else {
        Err(forbidden)
    }
}

} // verus!
