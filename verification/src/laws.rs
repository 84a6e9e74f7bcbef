//! The coordinator's cross-cutting laws, stated over the stores' own
//! transition functions and proved once.
//!
//! Each store is a whole-value holder: a `set` replaces the snapshot with
//! exactly the value written (clamped, for window snapshots), and a `get`
//! returns the held snapshot — that is what the stores' contracts state.
//! The laws here follow a store through a whole *sequence* of such writes,
//! applied in some serial order, which is how racing writers look from
//! under the context's reader/writer lock: writes never interleave, so a
//! read afterwards sees the last applied write whole — never a torn or
//! mixed value — and that write is one of the values some caller wrote.

use vstd::prelude::*;
use crate::settings::AppSettings;
use crate::settings::load_transition;
use crate::settings::set_transition;
use crate::window::WindowState;
use crate::window;

verus! {

/// The settings snapshot held after the writes are applied in order,
/// starting from `initial`: each write replaces the snapshot wholesale,
/// as `SettingsStore::set` ensures.
pub open spec fn settings_after_writes(initial: AppSettings, writes: Seq<AppSettings>) -> AppSettings
    decreases writes.len(),
{
    if writes.len() == 0 {
        initial
    } else {
        set_transition(settings_after_writes(initial, writes.drop_last()), writes.last())
    }
}

/// The window snapshot held after the writes are applied in order,
/// starting from `initial`: each write replaces the snapshot wholesale,
/// clamped, as `WindowStateStore::set` ensures.
pub open spec fn window_after_writes(initial: WindowState, writes: Seq<WindowState>) -> WindowState
    decreases writes.len(),
{
    if writes.len() == 0 {
        initial
    } else {
        window::set_transition(window_after_writes(initial, writes.drop_last()), writes.last())
    }
}

/// Law: setting a settings value and then reading yields exactly the
/// value set — round-trip identity, with no persistence layer involved.
/// In general, after any serialized sequence of whole-value writes, the
/// held snapshot is exactly the last value written.
pub proof fn lemma_settings_set_get_round_trip(initial: AppSettings, writes: Seq<AppSettings>)
    requires
        writes.len() > 0,
    ensures
        settings_after_writes(initial, writes) == writes.last(),
{
}

/// Law: writes serialized by the context's lock are applied whole and
/// last-writer-wins — a read after any number of concurrent
/// `set_window_state` calls with well-formed values yields exactly the
/// last applied value, which is one of the values written, never a torn
/// or mixed snapshot.
pub proof fn lemma_window_last_writer_wins(initial: WindowState, writes: Seq<WindowState>)
    requires
        writes.len() > 0,
        forall|i: int| 0 <= i < writes.len() ==> (#[trigger] writes[i]).wf(),
    ensures
        window_after_writes(initial, writes) == writes.last(),
        writes.contains(window_after_writes(initial, writes)),
{
    assert(writes.last().wf());
    assert(writes.last().clamped_spec() == writes.last());
    assert(writes[writes.len() - 1] == window_after_writes(initial, writes));
}

/// Law: with no persisted data present, the settings after the startup
/// load are exactly the hard-coded defaults: the capture flag off, no
/// login item, shortcuts enabled.
pub proof fn lemma_startup_without_persisted_data_keeps_defaults()
    ensures
        load_transition(AppSettings::default_spec(), None) == AppSettings::default_spec(),
        AppSettings::default_spec() == (AppSettings {
            show_in_screenshot: false,
            open_at_login: false,
            shortcuts_enabled: true,
        }),
{
}

} // verus!
