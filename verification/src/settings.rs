//! User-facing configuration and its in-memory store.
//!
//! `AppSettings` is the small record of feature toggles that survives
//! restarts; `SettingsStore` holds the current snapshot. Persistence is a
//! collaborator concern: the store only hands snapshots out (every `set`
//! is meant to be written through by the caller) and accepts an already
//! decoded value at startup, keeping the defaults whenever none is
//! available.

use vstd::prelude::*;

verus! {

/// User configuration: feature toggles kept across restarts.
#[derive(Clone, Copy, Debug, PartialEq, Eq, Structural)]
pub struct AppSettings {
    /// Whether the overlay surface may appear in screen captures.
    pub show_in_screenshot: bool,
    /// Whether the application should start at login.
    pub open_at_login: bool,
    /// Whether the global shortcuts are registered with the OS.
    pub shortcuts_enabled: bool,
}

impl AppSettings {
    /// The hard-coded defaults: capture-protected, no login item,
    /// shortcuts on.
    pub open spec fn default_spec() -> AppSettings {
        AppSettings { show_in_screenshot: false, open_at_login: false, shortcuts_enabled: true }
    }
}

impl Default for AppSettings {
    /// Defaults exist so that absence of persisted data never produces an
    /// invalid state.
    fn default() -> (r: AppSettings)
        ensures
            r == AppSettings::default_spec(),
    {
        AppSettings { show_in_screenshot: false, open_at_login: false, shortcuts_enabled: true }
    }
}

/// What one `set` makes the held snapshot: exactly the value written,
/// whatever was held before.
pub open spec fn set_transition(state: AppSettings, write: AppSettings) -> AppSettings {
    write
}

/// What the startup load makes the held snapshot: the decoded record when
/// there is one, the previously held value (the defaults, at startup)
/// when the persisted data is missing or malformed.
pub open spec fn load_transition(state: AppSettings, persisted: Option<AppSettings>) -> AppSettings {
    match persisted {
        Some(s) => s,
        None => state,
    }
}

/// In-memory holder of the current `AppSettings` snapshot.
///
/// The store is a plain value holder: `set` replaces the whole snapshot,
/// `get` returns it by value, so a read never sees a half-applied write.
/// Writing the snapshot through to the persisted-state collaborator is the
/// caller's side of the bargain: `set` returns nothing to persist here
/// because the snapshot it was given is exactly what must be written.
pub struct SettingsStore {
    current: AppSettings,
}

impl View for SettingsStore {
    type V = AppSettings;

    closed spec fn view(&self) -> AppSettings {
        self.current
    }
}

impl SettingsStore {
    /// A fresh store holds the defaults.
    pub fn new() -> (s: SettingsStore)
        ensures
            s@ == AppSettings::default_spec(),
    {
        SettingsStore { current: AppSettings::default() }
    }

    /// Current snapshot by value; never fails.
    pub fn get(&self) -> (r: AppSettings)
        ensures
            r == self@,
    {
        self.current
    }

    /// Replaces the snapshot wholesale with exactly the value given.
    pub fn set(&mut self, new: AppSettings)
        ensures
            final(self)@ == new,
            final(self)@ == set_transition(old(self)@, new),
    {
        self.current = new;
    }

    /// Startup hand-off from the persisted-state collaborator: the outer
    /// layer passes the decoded record, or `None` when the persisted data
    /// is missing or malformed. On `None` the store is left untouched, so
    /// a store that held the defaults still holds them.
    pub fn load_from_collaborator(&mut self, persisted: Option<AppSettings>)
        ensures
            final(self)@ == load_transition(old(self)@, persisted),
            persisted matches Some(s) ==> final(self)@ == s,
            persisted is None ==> final(self)@ == old(self)@,
    {
        match persisted {
            Some(s) => self.current = s,
            None => (),
        }
    }
}

} // verus!
