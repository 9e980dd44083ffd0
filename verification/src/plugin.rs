//! The plugin lifecycle states, route authentication requirements, and the registrar
//! through which a plugin library registers its plugins.

use vstd::prelude::*;

verus! {

/// The lifecycle state of a loaded plugin: `Loaded` after loading, `Enabled` after
/// enabling (its menu is visible), `Running` after starting (its background work runs).
#[derive(Debug, Clone, Copy, PartialEq, Eq, Structural)]
pub enum PluginStatus {
    /// Loaded; the menu is hidden.
    Loaded,
    /// Enabled; the menu is visible and the API reachable.
    Enabled,
    /// Started; background tasks run.
    Running,
}

/// Whether a plugin in this state shows its menu: only when enabled or running.
pub open spec fn menu_visible(s: PluginStatus) -> bool {
    s is Enabled || s is Running
}

impl PluginStatus {
    /// Whether a plugin in this state shows its menu (enabled or running).
    pub fn shows_menu(self) -> (r: bool)
        ensures
            r == menu_visible(self),
    {
        match self {
            PluginStatus::Loaded => false,
            PluginStatus::Enabled => true,
            PluginStatus::Running => true,
        }
    }
}

/// What a plugin route requires of the caller.
#[derive(Debug, Clone, PartialEq, Eq)]
pub enum AuthRequirement {
    /// Anyone may call it.
    Public,
    /// The caller must be logged in.
    Authenticated,
    /// The caller must be logged in and hold this permission.
    Permission(&'static str),
}

/// Collects the plugins that a library registers, until registration ends. Once an
/// error has been reported, later plugins are not kept, and the registration fails with
/// the last error reported.
#[derive(Debug)]
pub struct PluginRegistrar<P> {
    plugins: Vec<P>,
    error: Option<String>,
}

impl<P> PluginRegistrar<P> {
    /// The plugins kept so far, in registration order.
    pub closed spec fn kept(&self) -> Seq<P> {
        self.plugins@
    }

    /// The text of the last error reported, if any.
    pub closed spec fn reported(&self) -> Option<Seq<char>> {
        match self.error {
            Some(e) => Some(e@),
            None => None,
        }
    }

    /// A registrar with no plugins and no error.
    pub fn default() -> (r: Self)
        ensures
            r.kept() == Seq::<P>::empty(),
            r.reported() is None,
    {
        PluginRegistrar { plugins: Vec::new(), error: None }
    }

    /// Registers a plugin: kept unless an error has been reported.
    pub fn register(&mut self, plugin: P)
        ensures
            final(self).reported() == old(self).reported(),
            final(self).kept() == if old(self).reported() is None {
                old(self).kept().push(plugin)
            } else {
                old(self).kept()
            },
    {
        if self.error.is_none() {
            self.plugins.push(plugin);
        }
    }

    /// Reports an error (its text); only the last one reported is kept.
    pub fn error(&mut self, error: String)
        ensures
            final(self).kept() == old(self).kept(),
            final(self).reported() == Some(error@),
    {
        self.error = Some(error);
    }

    /// Ends registration: the kept plugins, or the last error reported.
    pub fn plugins(self) -> (r: Result<Vec<P>, String>)
        ensures
            match self.reported() {
                None => r matches Ok(v) && v@ == self.kept(),
                Some(e) => r matches Err(x) && x@ == e,
            },
    {
        match self.error {
            None => Ok(self.plugins),
            Some(error) => Err(error),
        }
    }
}

} // verus!
