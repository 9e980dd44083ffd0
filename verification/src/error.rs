//! The error type returned by the library's operations, its kinds, their texts,
//! and the HTTP status that the host answers each kind with.

use vstd::prelude::*;
use crate::text::{two, three, five};

verus! {

/// What went wrong. Where the underlying cause is a foreign error value, the
/// kind carries that error's text.
#[derive(Debug)]
pub enum ErrorKind {
    /// A dynamic library could not be opened: library path, then the cause.
    LibraryOpenFailed(String, String),
    /// A dynamic library could not be closed: library path, then the cause.
    LibraryCloseFailed(String, String),
    /// A symbol was not found in a library: symbol name, then the cause.
    SymbolNotFound(String, String),
    /// The host and the plugin library were built from incompatible versions.
    IncompatibleLibraryVersion(String),
    /// The plugin library reported an error while registering its plugins.
    PluginRegistration(String),
    /// The configuration has no entry for the plugin type.
    UnknownPluginManagerType(String),
    /// No plugin with this id is loaded.
    PluginNotFound(String),
    /// The plugin's lifecycle state does not allow the operation.
    InvalidPluginState(String),
    /// A database operation failed.
    DatabaseError(String),
    /// A plugin dependency is not satisfied.
    DependencyUnmet(String),
    /// A dependency cycle was found.
    CircularDependency(String),
}

/// The library's error value: a wrapper around its [`ErrorKind`].
#[derive(Debug)]
pub struct Error(ErrorKind);

/// The text that displaying an error kind yields.
pub open spec fn kind_text(k: ErrorKind) -> Seq<char> {
    match k {
        ErrorKind::LibraryOpenFailed(path, e) =>
            "Library '"@ + path@ + "' failed to open; error: '"@ + e@ + "'"@,
        ErrorKind::SymbolNotFound(name, lib) =>
            "Could not find symbol '"@ + name@ + "' in library '"@ + lib@ + "'"@,
        ErrorKind::LibraryCloseFailed(path, e) =>
            "Library '"@ + path@ + "' failed to close; error: '"@ + e@ + "'"@,
        ErrorKind::IncompatibleLibraryVersion(path) =>
            "Library '"@ + path@ + "' has incompatible version"@,
        ErrorKind::PluginRegistration(e) =>
            "Plugin(s) failed to register; error: '"@ + e@ + "'"@,
        ErrorKind::UnknownPluginManagerType(t) =>
            "No Configured plugins for type '"@ + t@ + "'"@,
        ErrorKind::PluginNotFound(id) => "Plugin '"@ + id@ + "' not found"@,
        ErrorKind::InvalidPluginState(m) => "Invalid plugin state: "@ + m@,
        ErrorKind::DatabaseError(m) => "Database error: "@ + m@,
        ErrorKind::DependencyUnmet(m) => "Dependency unmet: "@ + m@,
        ErrorKind::CircularDependency(m) => "Circular dependency: "@ + m@,
    }
}

/// The HTTP status that the host answers an error kind with:
/// 404 for a missing plugin, 409 for a state conflict, 500 otherwise.
pub open spec fn kind_status(k: ErrorKind) -> u16 {
    match k {
        ErrorKind::PluginNotFound(_) => 404,
        ErrorKind::InvalidPluginState(_) => 409,
        _ => 500,
    }
}

impl ErrorKind {
    /// The human-readable text of this kind (what displaying it shows).
    pub fn text(&self) -> (r: String)
        ensures
            r@ == kind_text(*self),
    {
        match self {
            ErrorKind::LibraryOpenFailed(path, e) => five(
                "Library '",
                path.as_str(),
                "' failed to open; error: '",
                e.as_str(),
                "'",
            ),
            ErrorKind::SymbolNotFound(name, lib) => five(
                "Could not find symbol '",
                name.as_str(),
                "' in library '",
                lib.as_str(),
                "'",
            ),
            ErrorKind::LibraryCloseFailed(path, e) => five(
                "Library '",
                path.as_str(),
                "' failed to close; error: '",
                e.as_str(),
                "'",
            ),
            ErrorKind::IncompatibleLibraryVersion(path) => three(
                "Library '",
                path.as_str(),
                "' has incompatible version",
            ),
            ErrorKind::PluginRegistration(e) => three(
                "Plugin(s) failed to register; error: '",
                e.as_str(),
                "'",
            ),
            ErrorKind::UnknownPluginManagerType(t) => three(
                "No Configured plugins for type '",
                t.as_str(),
                "'",
            ),
            ErrorKind::PluginNotFound(id) => three("Plugin '", id.as_str(), "' not found"),
            ErrorKind::InvalidPluginState(m) => two("Invalid plugin state: ", m.as_str()),
            ErrorKind::DatabaseError(m) => two("Database error: ", m.as_str()),
            ErrorKind::DependencyUnmet(m) => two("Dependency unmet: ", m.as_str()),
            ErrorKind::CircularDependency(m) => two("Circular dependency: ", m.as_str()),
        }
    }
}

impl Error {
    /// The kind of this error.
    pub closed spec fn kind_of(&self) -> ErrorKind {
        self.0
    }

    /// Returns the kind of this error.
    pub fn kind(&self) -> (r: &ErrorKind)
        ensures
            *r == self.kind_of(),
    {
        &self.0
    }

    /// The human-readable text of this error (what displaying it shows):
    /// the text of its kind.
    pub fn text(&self) -> (r: String)
        ensures
            r@ == kind_text(self.kind_of()),
    {
        self.0.text()
    }

    /// The text of the underlying cause, for the kinds that wrap a foreign error
    /// (opening or closing a library, and plugin registration); `None` for the others.
    pub fn source_text(&self) -> (r: Option<String>)
        ensures
            r matches Some(s) ==> (match self.kind_of() {
                ErrorKind::LibraryOpenFailed(_, e) => s@ == e@,
                ErrorKind::LibraryCloseFailed(_, e) => s@ == e@,
                ErrorKind::PluginRegistration(e) => s@ == e@,
                _ => false,
            }),
            r is None <==> !(self.kind_of() is LibraryOpenFailed || self.kind_of() is LibraryCloseFailed
                || self.kind_of() is PluginRegistration),
    {
        match &self.0 {
            ErrorKind::LibraryOpenFailed(_, e) => Some(e.clone()),
            ErrorKind::LibraryCloseFailed(_, e) => Some(e.clone()),
            ErrorKind::PluginRegistration(e) => Some(e.clone()),
            _ => None,
        }
    }
}

impl From<ErrorKind> for Error {
    fn from(v: ErrorKind) -> (r: Self)
        ensures
            r.kind_of() == v,
    {
        Error(v)
    }
}

impl vstd::std_specs::convert::FromSpecImpl<ErrorKind> for Error {
    open spec fn obeys_from_spec() -> bool {
        true
    }

    closed spec fn from_spec(v: ErrorKind) -> Error {
        Error(v)
    }
}

} // verus!
