//! The scaffolding generator's logic: plugin name rules, the names derived from a plugin
//! name, and the contents of every file of a new plugin skeleton.

use vstd::prelude::*;
use crate::text::{replace_text, replaced, split_text, split_on};

verus! {

/// A character allowed in a plugin name: an ASCII lowercase letter, a digit or `_`.
pub open spec fn plugin_name_char(c: char) -> bool {
    ('a' <= c && c <= 'z') || ('0' <= c && c <= '9') || c == '_'
}

/// A valid plugin name: not empty, and made of ASCII lowercase letters, digits and `_`.
pub open spec fn valid_plugin_name(s: Seq<char>) -> bool {
    s.len() > 0 && forall|i: int| 0 <= i < s.len() ==> plugin_name_char(#[trigger] s[i])
}

/// The I/O error type, carried through unread.
#[verifier::external_type_specification]
#[verifier::external_body]
pub struct ExIoError(std::io::Error);

/// The kinds of I/O error that the generator reports, as `std::io::ErrorKind` names them.
#[derive(Debug, Clone, Copy, PartialEq, Eq, Structural)]
pub enum IoErrorKind {
    /// `std::io::ErrorKind::InvalidInput`.
    InvalidInput,
    /// `std::io::ErrorKind::AlreadyExists`.
    AlreadyExists,
    /// Any other kind.
    Other,
}

/// What `std::io::Error::kind` answers for an error, among the kinds the generator tells
/// apart.
pub uninterp spec fn io_error_kind(e: std::io::Error) -> IoErrorKind;

/// What displaying an I/O error (`to_string`) yields.
pub uninterp spec fn io_error_text(e: std::io::Error) -> Seq<char>;

/// `std::io::Error::new(kind, msg)`: an error whose `kind()` is `kind` and whose text is
/// `msg`.
#[verifier::external_body]
fn io_error(kind: IoErrorKind, msg: &str) -> (r: std::io::Error)
    ensures
        io_error_kind(r) == kind,
        io_error_text(r) == msg@,
{
    let k = match kind {
        IoErrorKind::InvalidInput => std::io::ErrorKind::InvalidInput,
        IoErrorKind::AlreadyExists => std::io::ErrorKind::AlreadyExists,
        IoErrorKind::Other => std::io::ErrorKind::Other,
    };
    std::io::Error::new(k, msg.to_string())
}

/// Checks a plugin name: `Ok` when it is valid; an `InvalidInput` error when it is empty
/// ("插件名不能为空") or holds another character ("插件名仅允许小写字母、数字、下划线").
pub fn validate_name(name: &str) -> (r: Result<(), std::io::Error>)
    ensures
        r is Ok <==> valid_plugin_name(name@),
        r matches Err(e) ==> io_error_kind(e) == IoErrorKind::InvalidInput,
        r matches Err(e) ==> io_error_text(e) == if name@.len() == 0 {
            "插件名不能为空"@
        } else {
            "插件名仅允许小写字母、数字、下划线"@
        },
{
    if name.unicode_len() == 0 {
        return Err(io_error(IoErrorKind::InvalidInput, "插件名不能为空"));
    }
    let mut ok = true;
    for c in it: name.chars()
        invariant
            it.seq() == name@,
            ok <==> (forall|j: int| 0 <= j < it.index() ==> plugin_name_char(#[trigger] name@[j])),
    {
        if !(('a' <= c && c <= 'z') || ('0' <= c && c <= '9') || c == '_') {
            ok = false;
        }
    }
    if ok {
        Ok(())
    } else {
        Err(io_error(IoErrorKind::InvalidInput, "插件名仅允许小写字母、数字、下划线"))
    }
}

/// The checks made before a plugin skeleton is written: the name must be valid (see
/// [`validate_name`]), and the plugin's directory `plugin_dir` must not exist yet, else an
/// `AlreadyExists` error "目录已存在: <plugin_dir>". Only when this is `Ok` is anything
/// written.
pub fn check_new_plugin(plugin_name: &str, plugin_dir: &str, dir_exists: bool) -> (r: Result<(), std::io::Error>)
    ensures
        r is Ok <==> valid_plugin_name(plugin_name@) && !dir_exists,
        !valid_plugin_name(plugin_name@) ==> (r matches Err(e) && io_error_kind(e) == IoErrorKind::InvalidInput),
        valid_plugin_name(plugin_name@) && dir_exists ==> (r matches Err(e)
            && io_error_kind(e) == IoErrorKind::AlreadyExists
            && io_error_text(e) == "目录已存在: "@ + plugin_dir@),
{
    match validate_name(plugin_name) {
        Err(e) => Err(e),
        Ok(()) => {
            if dir_exists {
                let msg = crate::text::two("目录已存在: ", plugin_dir);
                Err(io_error(IoErrorKind::AlreadyExists, msg.as_str()))
            } else {
                Ok(())
            }
        },
    }
}

/// What `char::to_uppercase` yields for a character.
pub uninterp spec fn uppercase_of(c: char) -> Seq<char>;

/// `char::to_uppercase`, collected into a string: the uppercase mapping of the character.
/// On ASCII it is the ASCII uppercase: a lowercase letter maps to its capital, any other
/// ASCII character to itself.
#[verifier::external_body]
fn uppercase_text(c: char) -> (r: String)
    ensures
        r@ == uppercase_of(c),
        'a' <= c && c <= 'z' ==> r@ == seq![((c as u32) - 32) as char],
        (c as u32) < 128 && !('a' <= c && c <= 'z') ==> r@ == seq![c],
{
    c.to_uppercase().collect::<String>()
}

/// A word with its first character in uppercase (empty stays empty).
pub open spec fn capitalized(w: Seq<char>) -> Seq<char> {
    if w.len() == 0 {
        w
    } else {
        uppercase_of(w[0]) + w.skip(1)
    }
}

/// The words of `ws` one after the other.
pub open spec fn concatenated(ws: Seq<Seq<char>>) -> Seq<char>
    decreases ws.len(),
{
    if ws.len() == 0 {
        Seq::<char>::empty()
    } else {
        concatenated(ws.drop_last()) + ws.last()
    }
}

/// The words of `ws` with `sep` between each two.
pub open spec fn joined(ws: Seq<Seq<char>>, sep: Seq<char>) -> Seq<char>
    decreases ws.len(),
{
    if ws.len() == 0 {
        Seq::<char>::empty()
    } else if ws.len() == 1 {
        ws[0]
    } else {
        joined(ws.drop_last(), sep) + sep + ws.last()
    }
}

/// The type name of a plugin: its `_`-separated words capitalized and run together
/// (`afp_plugin` gives `AfpPlugin`).
pub open spec fn class_name_of(name: Seq<char>) -> Seq<char> {
    concatenated(split_on(name, '_').map_values(|w: Seq<char>| capitalized(w)))
}

/// The micro-frontend application name of a plugin: `_` replaced by `-`.
pub open spec fn app_name_of(name: Seq<char>) -> Seq<char> {
    replaced(name, "_"@, "-"@)
}

/// The page title of a plugin: `_` replaced by spaces, then each space-separated word
/// capitalized (`afp_plugin` gives `Afp Plugin`).
pub open spec fn title_of(name: Seq<char>) -> Seq<char> {
    joined(split_on(replaced(name, "_"@, " "@), ' ').map_values(|w: Seq<char>| capitalized(w)), " "@)
}

fn capitalize(w: &str) -> (r: String)
    ensures
        r@ == capitalized(w@),
{
    let n = w.unicode_len();
    if n == 0 {
        String::new()
    } else {
        let mut r = uppercase_text(w.get_char(0));
        r.append(w.substring_char(1, n));
        proof {
            assert(w@.skip(1) =~= w@.subrange(1, n as int));
        }
        r
    }
}

/// The type name of a plugin: its `_`-separated words capitalized and run together.
pub fn class_name(plugin_name: &str) -> (r: String)
    ensures
        r@ == class_name_of(plugin_name@),
{
    let parts = split_text(plugin_name, '_');
    let ghost words = split_on(plugin_name@, '_').map_values(|w: Seq<char>| capitalized(w));
    let mut out = String::new();
    let mut i: usize = 0;
    while i < parts.len()
        invariant
            parts@.len() == split_on(plugin_name@, '_').len(),
            forall|k: int| 0 <= k < parts@.len() ==> #[trigger] parts@[k]@ == split_on(plugin_name@, '_')[k],
            words == split_on(plugin_name@, '_').map_values(|w: Seq<char>| capitalized(w)),
            i <= parts@.len(),
            out@ == concatenated(words.take(i as int)),
        decreases parts@.len() - i,
    {
        let c = capitalize(parts[i].as_str());
        out.append(c.as_str());
        proof {
            assert(words.take(i + 1).drop_last() =~= words.take(i as int));
        }
        i = i + 1;
    }
    proof {
        assert(words.take(parts@.len() as int) =~= words);
    }
    out
}

/// The micro-frontend application name of a plugin: `_` replaced by `-`.
pub fn qiankun_app_name(plugin_name: &str) -> (r: String)
    ensures
        r@ == app_name_of(plugin_name@),
{
    proof { reveal_strlit("_"); }
    replace_text(plugin_name, "_", "-")
}

fn title(name: &str) -> (r: String)
    ensures
        r@ == title_of(name@),
{
    proof { reveal_strlit("_"); }
    let spaced = replace_text(name, "_", " ");
    let parts = split_text(spaced.as_str(), ' ');
    let ghost src = split_on(replaced(name@, "_"@, " "@), ' ');
    let ghost words = src.map_values(|w: Seq<char>| capitalized(w));
    let mut out = String::new();
    let mut i: usize = 0;
    while i < parts.len()
        invariant
            src == split_on(replaced(name@, "_"@, " "@), ' '),
            parts@.len() == src.len(),
            forall|k: int| 0 <= k < parts@.len() ==> #[trigger] parts@[k]@ == src[k],
            words == src.map_values(|w: Seq<char>| capitalized(w)),
            i <= parts@.len(),
            out@ == joined(words.take(i as int), " "@),
        decreases parts@.len() - i,
    {
        let c = capitalize(parts[i].as_str());
        if i > 0 {
            out.append(" ");
        }
        out.append(c.as_str());
        proof {
            assert(words.take(i + 1).drop_last() =~= words.take(i as int));
            if i == 0 {
                assert(words.take(1) =~= seq![words[0]]);
            }
        }
        i = i + 1;
    }
    proof {
        assert(words.take(parts@.len() as int) =~= words);
    }
    out
}

/// The `Cargo.toml` of a new plugin crate; `{name}` stands for the plugin name.
pub const CARGO_TOML_TEMPLATE: &'static str = r#"[package]
name = "{name}"
version = "0.1.0"
edition = "2021"

[workspace]

[lib]
crate-type = ["dylib"]

[dependencies]
plugkit = { version = "0.2", path = "../../../.." }
include_dir = "0.7"
serde = { version = "1", features = ["derive"] }
"#;

/// The `src/lib.rs` of a new plugin; `{name}` stands for the plugin name, `{cls}` for its type name.
pub const LIB_RS_TEMPLATE: &'static str = r#"/*!
{name} 插件 — 完全独立，仅依赖 plugkit 框架。

编译期将 ui/dist/ 嵌入到本插件的 dylib 中，宿主可直接从内存服务前端。
*/

use plugkit::database::DatabaseExt;
use plugkit::host::HostContext;
use plugkit::metadata::PluginMetadata;
use plugkit::plugin::{Plugin, PluginRegistrar};
use include_dir::{include_dir, Dir};
use serde::Serialize;
use std::sync::Arc;

// 编译期嵌入的 ui/dist/ 目录
pub static UI_DIST: Dir<'static> = include_dir!("$CARGO_MANIFEST_DIR/ui/dist");

/// {cls} 插件实例。
#[derive(Debug)]
pub struct {cls} {
    id: String,
    ui_base_dir: Option<String>,
    ui_dist: Option<&'static Dir<'static>>,
}

impl {cls} {
    fn new(id: &str) -> Self {
        Self {
            id: id.to_string(),
            ui_base_dir: None,
            ui_dist: None,
        }
    }

    fn with_ui_dist(mut self, base_dir: &str, dist: &'static Dir<'static>) -> Self {
        self.ui_base_dir = Some(base_dir.to_string());
        self.ui_dist = Some(dist);
        self
    }
}

impl Plugin for {cls} {
    fn plugin_id(&self) -> &String {
        &self.id
    }

    fn metadata(&self) -> PluginMetadata {
        PluginMetadata::new(&self.id, "{name}", env!("CARGO_PKG_VERSION"))
            .with_icon("🔌")
            .with_description("{name} 插件 — 由 plugkit new 生成")
            .with_author("Your Name <you@example.com>")
            .with_license("MIT")
    }

    fn on_load(&self, _db: &dyn DatabaseExt) -> plugkit::error::Result<()> {
        eprintln!("[{name}] loaded");
        Ok(())
    }
    fn on_unload(&self, _db: &dyn DatabaseExt) -> plugkit::error::Result<()> {
        eprintln!("[{name}] unloaded");
        Ok(())
    }
    fn on_enable(&self) -> plugkit::error::Result<()> {
        eprintln!("[{name}] enabled");
        Ok(())
    }
    fn on_disable(&self) -> plugkit::error::Result<()> {
        eprintln!("[{name}] disabled");
        Ok(())
    }
    fn on_start(&self) -> plugkit::error::Result<()> {
        eprintln!("[{name}] started");
        Ok(())
    }
    fn on_stop(&self) -> plugkit::error::Result<()> {
        eprintln!("[{name}] stopped");
        Ok(())
    }

    fn ui_base_dir(&self) -> Option<&str> {
        self.ui_base_dir.as_deref()
    }
    fn has_ui(&self) -> bool {
        self.ui_dist.is_some()
    }
    fn ui_dist(&self) -> Option<&'static Dir<'static>> {
        self.ui_dist
    }
}

// 注册入口（dylib 符号）
#[no_mangle]
pub extern "C" fn register_plugins(registrar: &mut PluginRegistrar) {
    registrar.register(Arc::new(
        {cls}::new(PLUGIN_ID).with_ui_dist("{name}/ui", &UI_DIST),
    ));
}

// 插件标识符：{name}::{name}::{cls}
const PLUGIN_ID: &str = concat!(
    env!("CARGO_PKG_NAME"),
    "::",
    module_path!(),
    "::",
    "{cls}",
);
"#;

/// The placeholder `ui/dist/index.html` that lets the embedded UI directory exist before the first build.
pub const PLACEHOLDER_HTML: &'static str = r#"<!doctype html><html><head><meta charset="UTF-8"/></head><body><div id="sub-app-container"></div></body></html>"#;

/// The development `ui/index.html`; `{title}` stands for the page title.
pub const DEV_HTML_TEMPLATE: &'static str = r#"<!doctype html>
<html lang="zh-CN">
  <head>
    <meta charset="UTF-8" />
    <meta name="viewport" content="width=device-width, initial-scale=1.0" />
    <title>{title}</title>
  </head>
  <body>
    <div id="sub-app-container"></div>
    <script type="module" src="/src/main.tsx"></script>
  </body>
</html>
"#;

/// The `ui/package.json`; `{qk}` stands for the micro-frontend application name.
pub const PACKAGE_JSON_TEMPLATE: &'static str = r#"{
  "name": "{qk}-ui",
  "private": true,
  "version": "0.1.0",
  "type": "module",
  "scripts": {
    "dev": "vite",
    "build": "vite build",
    "preview": "vite preview"
  },
  "dependencies": {
    "antd": "^5.22.0",
    "react": "^19.0.0",
    "react-dom": "^19.0.0"
  },
  "devDependencies": {
    "@types/react": "^19.0.0",
    "@types/react-dom": "^19.0.0",
    "@vitejs/plugin-react": "^4.3.0",
    "typescript": "~5.7.0",
    "vite": "^6.0.0",
    "vite-plugin-qiankun": "^1.0.15"
  }
}
"#;

/// The root `ui/tsconfig.json`.
pub const TSCONFIG_ROOT: &'static str = r#"{
  "files": [],
  "references": [{ "path": "./tsconfig.app.json" }]
}
"#;

/// The `ui/tsconfig.app.json`.
pub const TSCONFIG_APP: &'static str = r#"{
  "compilerOptions": {
    "tsBuildInfoFile": "./node_modules/.tmp/tsconfig.app.tsbuildinfo",
    "target": "ES2020",
    "useDefineForClassFields": true,
    "lib": ["ES2020", "DOM", "DOM.Iterable"],
    "module": "ESNext",
    "skipLibCheck": true,
    "moduleResolution": "bundler",
    "allowImportingTsExtensions": true,
    "isolatedModules": true,
    "moduleDetection": "force",
    "noEmit": true,
    "jsx": "preserve",
    "strict": true,
    "noUnusedLocals": true,
    "noUnusedParameters": true,
    "noFallthroughCasesInSwitch": true
  },
  "include": ["src"]
}
"#;

/// The `ui/vite.config.ts`; `{name}` stands for the plugin name, `{qk}` for the application name.
pub const VITE_CONFIG_TEMPLATE: &'static str = r#"import { defineConfig } from 'vite'
import react from '@vitejs/plugin-react'
import qiankun from 'vite-plugin-qiankun'

export default defineConfig({
  base: '/plugin-files/{name}/ui/dist/',
  plugins: [
    react(),
    qiankun('{qk}', { useDevMode: false }),
  ],
})
"#;

/// The `ui/src/main.tsx`; `{name}` stands for the plugin name, `{qk}` for the application name.
pub const MAIN_TSX_TEMPLATE: &'static str = r#"/**
 * {name} 插件 React 子应用入口（qiankun）。
 */
import { StrictMode } from 'react';
import { createRoot, type Root } from 'react-dom/client';
import Panel from './Panel';

let root: Root | null = null;

function render(props: Record<string, unknown> = {}) {
  const container = document.getElementById('sub-app-container');
  if (!container) return;
  root = createRoot(container);
  root.render(
    <StrictMode>
      <Panel
        pluginId={typeof props.pluginId === 'string' ? (props.pluginId as string) : '{name}'}
      />
    </StrictMode>,
  );
}

function destroy() {
  if (root) {
    root.unmount();
    root = null;
  }
}

export async function bootstrap() {}
export async function mount(props: Record<string, unknown>) { render(props); }
export async function update(props: Record<string, unknown>) { render(props); }
export async function unmount() { destroy(); }

// 独立运行（非 qiankun 环境）
if (!(window as { __POWERED_BY_QIANKUN__?: boolean }).__POWERED_BY_QIANKUN__) {
  render();
}

// 手动注入生命周期到 window.moudleQiankunAppLifeCycles
const QIANKUN_APP_NAME = '{qk}';
const qiankunWindow = window as unknown as {
  moudleQiankunAppLifeCycles?: Record<string, unknown>;
};
qiankunWindow.moudleQiankunAppLifeCycles = qiankunWindow.moudleQiankunAppLifeCycles ?? {};
qiankunWindow.moudleQiankunAppLifeCycles[QIANKUN_APP_NAME] = { bootstrap, mount, update, unmount };
"#;

/// The `ui/src/Panel.tsx`; `{name}` stands for the plugin name, `{cls}` for its type name.
pub const PANEL_TSX_TEMPLATE: &'static str = r#"/**
 * {name} 插件 React 面板（Ant Design 版）。
 * 演示控件：Card / Form / Input / Button / Tag
 */
import { useState, type ReactNode } from 'react';
import { Card, Form, Input, Button, Tag, Space, App as AntApp } from 'antd';

interface PanelProps {
  pluginId?: string;
}

function PanelContent({ pluginId = '{name}' }: PanelProps): ReactNode {
  const [note, setNote] = useState('');
  const { message } = AntApp.useApp();

  const handleSave = () => {
    message.success(`备注已保存: ${note}`);
  };

  return (
    <Card title="🔌 {cls} 控制面板" style={{ maxWidth: 720 }}>
      <Space direction="vertical" size="large" style={{ width: '100%' }}>
        <Form layout="vertical">
          <Form.Item label="插件 ID">
            <Tag color="blue">{pluginId}</Tag>
          </Form.Item>
          <Form.Item label="备注">
            <Input
              value={note}
              onChange={e => setNote(e.target.value)}
              placeholder="输入备注信息"
              allowClear
            />
          </Form.Item>
          <Button type="primary" onClick={handleSave}>
            💾 保存
          </Button>
        </Form>
      </Space>
    </Card>
  );
}

export function Panel(props: PanelProps): ReactNode {
  return (
    <AntApp>
      <PanelContent {...props} />
    </AntApp>
  );
}

export default Panel;
"#;

/// The plugin `Makefile`; `{name}` stands for the plugin name.
pub const MAKEFILE_TEMPLATE: &'static str = r#"REPO_ROOT := $(dir $(abspath $(lastword $(MAKEFILE_LIST))))

.PHONY: all build build-ui clean help

all: build ## 默认: 构建前端 + 后端

help: ## 列出所有可用目标
	@awk 'BEGIN {FS = ":.*##"; printf "Usage:\n  make \033[36m<target>\033[0m\n\nTargets:\n"} \
		/^#^[a-zA-Z_-]+:.*##/ { printf "  \033[36m%-15s\033[0m %s\n", $$1, $$2 }' $(MAKEFILE_LIST)

build: build-ui ## 构建前端 + 后端
	@echo "==> 构建后端 dylib"
	@cargo build
	@echo "✓ 构建完成 → target/debug/lib{name}.dylib"

build-ui: ## 构建前端 (ui/dist/)
	@echo "==> 构建前端"
	@cd ui && \
		[ -d node_modules ] || npm install; \
		(node node_modules/typescript/lib/tsc.js -b 2>/dev/null || true); \
		node node_modules/vite/bin/vite.js build
	@echo "✓ 前端构建完成 → ui/dist/"

clean: ## 清理构建产物
  @cargo clean
  @rm -rf ui/dist ui/node_modules
  @echo "✓ 清理完成"
"#;

/// The `Cargo.toml` of a new plugin.
pub fn cargo_toml(name: &str) -> (r: String)
    ensures
        r@ == replaced(CARGO_TOML_TEMPLATE@, "{name}"@, name@),
{
    proof { reveal_strlit("{name}"); }
    replace_text(CARGO_TOML_TEMPLATE, "{name}", name)
}

/// The `src/lib.rs` of a new plugin.
pub fn lib_rs(name: &str) -> (r: String)
    ensures
        r@ == replaced(replaced(LIB_RS_TEMPLATE@, "{name}"@, name@), "{cls}"@, class_name_of(name@)),
{
    proof {
        reveal_strlit("{name}");
        reveal_strlit("{cls}");
    }
    let cls = class_name(name);
    let t = replace_text(LIB_RS_TEMPLATE, "{name}", name);
    replace_text(t.as_str(), "{cls}", cls.as_str())
}

/// The placeholder `ui/dist/index.html`.
pub fn placeholder_html() -> (r: String)
    ensures
        r@ == PLACEHOLDER_HTML@,
{
    String::from_str(PLACEHOLDER_HTML)
}

/// The development `ui/index.html` of a new plugin, titled after it.
pub fn dev_html(name: &str) -> (r: String)
    ensures
        r@ == replaced(DEV_HTML_TEMPLATE@, "{title}"@, title_of(name@)),
{
    proof { reveal_strlit("{title}"); }
    let t = title(name);
    replace_text(DEV_HTML_TEMPLATE, "{title}", t.as_str())
}

/// The `ui/package.json` of a new plugin.
pub fn package_json(name: &str) -> (r: String)
    ensures
        r@ == replaced(PACKAGE_JSON_TEMPLATE@, "{qk}"@, app_name_of(name@)),
{
    proof { reveal_strlit("{qk}"); }
    let qk = qiankun_app_name(name);
    replace_text(PACKAGE_JSON_TEMPLATE, "{qk}", qk.as_str())
}

/// The root `ui/tsconfig.json`.
pub fn tsconfig_root() -> (r: String)
    ensures
        r@ == TSCONFIG_ROOT@,
{
    String::from_str(TSCONFIG_ROOT)
}

/// The `ui/tsconfig.app.json`.
pub fn tsconfig_app() -> (r: String)
    ensures
        r@ == TSCONFIG_APP@,
{
    String::from_str(TSCONFIG_APP)
}

/// The `ui/vite.config.ts` of a new plugin.
pub fn vite_config(name: &str) -> (r: String)
    ensures
        r@ == replaced(replaced(VITE_CONFIG_TEMPLATE@, "{name}"@, name@), "{qk}"@, app_name_of(name@)),
{
    proof {
        reveal_strlit("{name}");
        reveal_strlit("{qk}");
    }
    let qk = qiankun_app_name(name);
    let t = replace_text(VITE_CONFIG_TEMPLATE, "{name}", name);
    replace_text(t.as_str(), "{qk}", qk.as_str())
}

/// The `ui/src/main.tsx` of a new plugin.
pub fn main_tsx(name: &str) -> (r: String)
    ensures
        r@ == replaced(replaced(MAIN_TSX_TEMPLATE@, "{name}"@, name@), "{qk}"@, app_name_of(name@)),
{
    proof {
        reveal_strlit("{name}");
        reveal_strlit("{qk}");
    }
    let qk = qiankun_app_name(name);
    let t = replace_text(MAIN_TSX_TEMPLATE, "{name}", name);
    replace_text(t.as_str(), "{qk}", qk.as_str())
}

/// The `ui/src/Panel.tsx` of a new plugin.
pub fn panel_tsx(name: &str) -> (r: String)
    ensures
        r@ == replaced(replaced(PANEL_TSX_TEMPLATE@, "{name}"@, name@), "{cls}"@, class_name_of(name@)),
{
    proof {
        reveal_strlit("{name}");
        reveal_strlit("{cls}");
    }
    let cls = class_name(name);
    let t = replace_text(PANEL_TSX_TEMPLATE, "{name}", name);
    replace_text(t.as_str(), "{cls}", cls.as_str())
}

/// The `Makefile` of a new plugin.
pub fn makefile(name: &str) -> (r: String)
    ensures
        r@ == replaced(MAKEFILE_TEMPLATE@, "{name}"@, name@),
{
    proof { reveal_strlit("{name}"); }
    replace_text(MAKEFILE_TEMPLATE, "{name}", name)
}

} // verus!
