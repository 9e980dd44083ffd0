# plugkit

A plugin-management framework, written in Verus. `src/` is the verified library:

- `plugin`: plugin lifecycle states, route requirements, and the registrar that collects a
  library's plugins.
- `config`: the configuration that maps plugin types to sets of libraries.
- `event_bus`: the bounded event history, and the laws of a run of publishes.
- `library`: which library contributed which plugins.
- `host`: the host's decisions: the plugin view shown to the front end, error answers, event
  targets, library lookup, installation plans, UI files and content types, data-table SQL.
- `auth`: users and permissions, HS256 tokens (issuing and verifying), revocation decisions,
  route admission, and the steps of login.
- `database`: the database interface offered to plugins, and table-name checking.
- `news`: the news-agency demonstration's article formats.
- `cli`: plugin name rules and the files of a new plugin skeleton.

`app/` is the `plugkit` command and what does I/O: the SQLite database, the authentication
service's lock and revocation list, the axum authentication middleware, and writing,
packing and finding plugin files. `tests/` exercises the library.
