//! The command surface: the operations external callers invoke, and the
//! shared application context they run against.
//!
//! `AppContext` is the explicitly constructed context object that replaces
//! ambient globals: it owns the settings and window-state stores and the
//! shortcut registry behind one verified reader/writer lock, so an
//! arbitrary number of OS-callback threads and the UI thread can share it
//! — many concurrent readers, a single writer, every write a whole-value
//! replace, last writer wins. No lock is ever held across the
//! persisted-settings write: mutating operations copy the snapshot out,
//! release the lock, and hand the snapshot to the caller to persist.
//!
//! Operations that need the window system (toggling visibility, content
//! protection) are split at that edge: the functions here take what the
//! window system reported as a plain value and return either the operation
//! to apply or the error to surface, exactly as specified, for every
//! possible report.

use vstd::prelude::*;
use vstd::rwlock::RwLock;
use crate::presenter::SurfaceOp;
use crate::presenter::toggle_plan;
use crate::settings::AppSettings;
use crate::settings::SettingsStore;
use crate::shortcuts::ShortcutBinding;
use crate::shortcuts::ShortcutRegistry;
use crate::shortcuts::table_spec;
use crate::window::WindowState;
use crate::window::WindowStateStore;

verus! {

/// The reported — not silently swallowed — failures of the command
/// surface. Each carries a fixed descriptive reason; the outer layer may
/// append the window system's own detail.
#[derive(Clone, Copy, Debug, PartialEq, Eq, Structural)]
pub enum CommandError {
    /// The main window handle could not be resolved.
    WindowMissing,
    /// The window system refused to report visibility.
    VisibilityQueryFailed,
    /// The window system refused to hide the surface.
    HideFailed,
    /// The window system refused to show the surface.
    ShowFailed,
    /// The window system refused to change content protection.
    ContentProtectionFailed,
    /// The OS refused to register a shortcut binding.
    RegistrationFailed,
}

impl CommandError {
    /// The descriptive reason string surfaced to the caller.
    pub fn reason(self) -> (r: &'static str)
        ensures
            self is WindowMissing ==> r@ == "Failed to get main window"@,
            self is VisibilityQueryFailed ==> r@ == "Failed to check visibility"@,
            self is HideFailed ==> r@ == "Failed to hide window"@,
            self is ShowFailed ==> r@ == "Failed to show window"@,
            self is ContentProtectionFailed ==> r@ == "Failed to update content protection"@,
            self is RegistrationFailed ==> r@ == "Failed to register shortcuts"@,
    {
        match self {
            CommandError::WindowMissing => "Failed to get main window",
            CommandError::VisibilityQueryFailed => "Failed to check visibility",
            CommandError::HideFailed => "Failed to hide window",
            CommandError::ShowFailed => "Failed to show window",
            CommandError::ContentProtectionFailed => "Failed to update content protection",
            CommandError::RegistrationFailed => "Failed to register shortcuts",
        }
    }
}

/// What the window system reported when asked for the surface's current
/// visibility.
#[derive(Clone, Copy, Debug, PartialEq, Eq, Structural)]
pub enum VisibilityProbe {
    /// No main window handle could be resolved.
    NoWindow,
    /// The handle exists but the visibility query was refused.
    QueryFailed,
    /// The query answered: whether the surface is visible now.
    Reported(bool),
}

/// The toggle command's decision, for every possible report from the
/// window system: a missing window or a refused query surfaces the
/// matching error and nothing is applied; a reported visibility yields the
/// inverting operation and the visibility to return once it is applied.
/// On an error the window-state cache is left unmodified: it keeps the
/// last known successful apply.
pub fn toggle_visibility_command(probe: VisibilityProbe) -> (r: Result<(SurfaceOp, bool), CommandError>)
    ensures
        probe is NoWindow ==> r == Err::<(SurfaceOp, bool), CommandError>(CommandError::WindowMissing),
        probe is QueryFailed ==> r == Err::<(SurfaceOp, bool), CommandError>(
            CommandError::VisibilityQueryFailed,
        ),
        probe matches VisibilityProbe::Reported(v) ==> {
            &&& v ==> r == Ok::<(SurfaceOp, bool), CommandError>((SurfaceOp::Hide, false))
            &&& !v ==> r == Ok::<(SurfaceOp, bool), CommandError>((SurfaceOp::Show, true))
        },
{
    match probe {
        VisibilityProbe::NoWindow => Err(CommandError::WindowMissing),
        VisibilityProbe::QueryFailed => Err(CommandError::VisibilityQueryFailed),
        VisibilityProbe::Reported(v) => Ok(toggle_plan(v)),
    }
}

/// The toggle command's outcome once the outer layer has applied (or
/// failed to apply) the planned operation: success returns the new
/// visibility; a refusal surfaces the error matching the operation that
/// was attempted, and the cache stays as it was.
pub fn toggle_apply_outcome(op: SurfaceOp, applied: bool, new_visible: bool) -> (r: Result<
    bool,
    CommandError,
>)
    ensures
        applied ==> r == Ok::<bool, CommandError>(new_visible),
        !applied && op is Hide ==> r == Err::<bool, CommandError>(CommandError::HideFailed),
        !applied && op is Show ==> r == Err::<bool, CommandError>(CommandError::ShowFailed),
{
    if applied {
        Ok(new_visible)
    } else {
        match op {
            SurfaceOp::Hide => Err(CommandError::HideFailed),
            SurfaceOp::Show => Err(CommandError::ShowFailed),
        }
    }
}

/// The content-protection command's decision: with a window present the
/// requested flag is exactly what must be applied; without one the
/// operation aborts with the missing-window reason.
pub fn content_protection_command(window_present: bool, enabled: bool) -> (r: Result<
    bool,
    CommandError,
>)
    ensures
        window_present ==> r == Ok::<bool, CommandError>(enabled),
        !window_present ==> r == Err::<bool, CommandError>(CommandError::WindowMissing),
{
    if window_present {
        Ok(enabled)
    } else {
        Err(CommandError::WindowMissing)
    }
}

/// The content-protection command's outcome: a refusal by the window
/// system surfaces the matching error, with no state corrupted.
pub fn content_protection_outcome(applied: bool) -> (r: Result<(), CommandError>)
    ensures
        applied ==> r == Ok::<(), CommandError>(()),
        !applied ==> r == Err::<(), CommandError>(CommandError::ContentProtectionFailed),
{
    if applied {
        Ok(())
    } else {
        Err(CommandError::ContentProtectionFailed)
    }
}

/// Everything the coordinator shares across threads: the two stores and
/// the shortcut registry.
pub struct CoreState {
    /// The settings snapshot holder.
    pub settings: SettingsStore,
    /// The window geometry/visibility cache.
    pub window: WindowStateStore,
    /// The shortcut registration record.
    pub registry: ShortcutRegistry,
}

impl CoreState {
    /// Well-formed: the registry carries one flag per table entry.
    pub open spec fn wf(self) -> bool {
        self.registry.wf()
    }
}

/// The shared application context: the core state behind one verified
/// reader/writer lock. Constructed once by the process entry point and
/// passed by shared reference to every component; there are no ambient
/// globals. Two racing mutations are serialized by the lock, and which
/// one wins is deliberately the last applied (last-writer-wins).
pub struct AppContext {
    state: RwLock<CoreState, spec_fn(CoreState) -> bool>,
}

impl AppContext {
    /// Every context guards well-formed core state.
    #[verifier::type_invariant]
    spec fn ctx_inv(self) -> bool {
        forall|s: CoreState| #[trigger] self.state.inv(s) == s.wf()
    }

    /// A fresh context: default settings, default window snapshot,
    /// nothing registered.
    pub fn new() -> AppContext {
        let core = CoreState {
            settings: SettingsStore::new(),
            window: WindowStateStore::new(),
            registry: ShortcutRegistry::new(),
        };
        let state = RwLock::new(core, Ghost(|s: CoreState| s.wf()));
        AppContext { state }
    }

    /// Current window snapshot by value; never fails. Readers share the
    /// lock, so none blocks another.
    pub fn get_window_state(&self) -> (r: WindowState)
        ensures
            r.wf(),
    {
        let handle = self.state.acquire_read();
        let r = handle.borrow().window.get();
        handle.release_read();
        r
    }

    /// Atomic whole-snapshot replace of the window cache; never fails.
    /// A snapshot with a zero dimension is clamped on the way in.
    pub fn set_window_state(&self, new: WindowState) {
        proof {
            use_type_invariant(self);
        }
        let (mut core, write_handle) = self.state.acquire_write();
        core.window.set(new);
        write_handle.release_write(core);
    }

    /// Current settings snapshot by value; never fails.
    pub fn get_settings(&self) -> AppSettings {
        let handle = self.state.acquire_read();
        let r = handle.borrow().settings.get();
        handle.release_read();
        r
    }

    /// Replaces the settings snapshot and returns exactly the value to
    /// write through to the persisted-state collaborator. The lock is
    /// released before the caller persists, so a slow write never blocks
    /// concurrent readers; a persistence failure is the collaborator's to
    /// swallow, never surfaced here.
    pub fn set_settings(&self, new: AppSettings) -> (persist: AppSettings)
        ensures
            persist == new,
    {
        proof {
            use_type_invariant(self);
        }
        let (mut core, write_handle) = self.state.acquire_write();
        core.settings.set(new);
        let persist = core.settings.get();
        write_handle.release_write(core);
        persist
    }

    /// Startup hand-off of the persisted settings, already decoded by the
    /// collaborator; `None` (missing or malformed data) leaves the
    /// defaults untouched and startup proceeds.
    pub fn load_persisted_settings(&self, persisted: Option<AppSettings>) {
        proof {
            use_type_invariant(self);
        }
        let (mut core, write_handle) = self.state.acquire_write();
        core.settings.load_from_collaborator(persisted);
        write_handle.release_write(core);
    }

    /// The bindings an enable must attempt now: the table entries not
    /// already registered, each with its table index.
    pub fn shortcut_enable_plan(&self) -> (r: Vec<(usize, ShortcutBinding)>)
        ensures
            forall|k: int| #![trigger r@[k]] 0 <= k < r@.len() ==> {
                &&& 0 <= r@[k].0 < table_spec().len()
                &&& r@[k].1 == table_spec()[r@[k].0 as int]
            },
    {
        proof {
            use_type_invariant(self);
        }
        let handle = self.state.acquire_read();
        let plan = handle.borrow().registry.enable_plan();
        handle.release_read();
        plan
    }

    /// Records the outcomes of an enable: successes are marked
    /// registered, failures are returned as the report — one failed
    /// binding never hides the others — and the enabled intent is
    /// recorded into the settings. Returns the report and the settings
    /// snapshot to write through, with the lock already released.
    pub fn complete_shortcut_enable(&self, attempts: &Vec<(usize, bool)>) -> (r: (
        Vec<usize>,
        AppSettings,
    ))
        requires
            forall|k: int| 0 <= k < attempts@.len() ==> #[trigger] attempts@[k].0 < table_spec().len(),
        ensures
            r.0@ == ShortcutRegistry::failed_of(attempts@),
            forall|i: usize|
                r.0@.contains(i) <==> exists|k: int|
                    0 <= k < attempts@.len() && (#[trigger] attempts@[k]) == (i, false),
            r.1.shortcuts_enabled,
    {
        proof {
            use_type_invariant(self);
        }
        let (mut core, write_handle) = self.state.acquire_write();
        let failed = core.registry.apply_enable(attempts);
        let mut snapshot = core.settings.get();
        snapshot.shortcuts_enabled = true;
        core.settings.set(snapshot);
        let persist = core.settings.get();
        write_handle.release_write(core);
        (failed, persist)
    }

    /// Records a bulk disable: every binding is recorded unregistered
    /// (unregistration with the OS is best-effort; already-unregistered
    /// is not an error), and the disabled intent is recorded into the
    /// settings. Returns the settings snapshot to write through.
    pub fn complete_shortcut_disable(&self) -> (persist: AppSettings)
        ensures
            !persist.shortcuts_enabled,
    {
        proof {
            use_type_invariant(self);
        }
        let (mut core, write_handle) = self.state.acquire_write();
        core.registry.clear_all();
        let mut snapshot = core.settings.get();
        snapshot.shortcuts_enabled = false;
        core.settings.set(snapshot);
        let persist = core.settings.get();
        write_handle.release_write(core);
        persist
    }
}

} // verus!
