//! The overlay surface's visibility state machine and the elevation
//! contract.
//!
//! The window system owns the real surface; this module owns the rule: the
//! surface is a two-state machine, `Hidden` or `Visible`, starting
//! `Visible`, driven only by show, hide and toggle. Each operation here
//! computes the next state and, for a toggle, which concrete operation the
//! outer layer must apply to the window handle. `ElevationConfig` states,
//! as plain data, every capability the one-time elevation of the window
//! must establish so that the surface floats above full-screen contexts
//! without ever stealing focus.

use vstd::prelude::*;

verus! {

/// The two states of the overlay surface.
#[derive(Clone, Copy, Debug, PartialEq, Eq, Structural)]
pub enum Visibility {
    /// The surface is off screen.
    Hidden,
    /// The surface is on screen; the machine starts here.
    Visible,
}

/// The concrete window operation the outer layer must apply.
#[derive(Clone, Copy, Debug, PartialEq, Eq, Structural)]
pub enum SurfaceOp {
    /// Bring the surface on screen.
    Show,
    /// Take the surface off screen.
    Hide,
}

impl Visibility {
    /// The state the machine starts in.
    pub open spec fn initial_spec() -> Visibility {
        Visibility::Visible
    }

    /// Whether the state counts as visible.
    pub open spec fn is_visible_spec(self) -> bool {
        self is Visible
    }

    /// The state a `show` leads to.
    pub open spec fn after_show(self) -> Visibility {
        Visibility::Visible
    }

    /// The state a `hide` leads to.
    pub open spec fn after_hide(self) -> Visibility {
        Visibility::Hidden
    }

    /// The state a `toggle` leads to.
    pub open spec fn after_toggle(self) -> Visibility {
        if self is Visible {
            Visibility::Hidden
        } else {
            Visibility::Visible
        }
    }

    /// The initial state, visible.
    pub fn initial() -> (r: Visibility)
        ensures
            r == Visibility::initial_spec(),
            r.is_visible_spec(),
    {
        Visibility::Visible
    }

    /// Show: the result is visible; on an already-visible surface this is
    /// a no-op that leaves the state unchanged and still succeeds.
    pub fn apply_show(self) -> (r: Visibility)
        ensures
            r == self.after_show(),
            r.is_visible_spec(),
            self.is_visible_spec() ==> r == self,
    {
        Visibility::Visible
    }

    /// Hide: the result is hidden; on an already-hidden surface this is a
    /// no-op that leaves the state unchanged and still succeeds.
    pub fn apply_hide(self) -> (r: Visibility)
        ensures
            r == self.after_hide(),
            !r.is_visible_spec(),
            !self.is_visible_spec() ==> r == self,
    {
        Visibility::Hidden
    }

    /// Toggle: inverts the state and reports the new visibility, true
    /// exactly when the surface ends up visible.
    pub fn toggle(self) -> (r: (Visibility, bool))
        ensures
            r.0 == self.after_toggle(),
            r.1 == r.0.is_visible_spec(),
            r.1 == !self.is_visible_spec(),
    {
        match self {
            Visibility::Visible => (Visibility::Hidden, false),
            Visibility::Hidden => (Visibility::Visible, true),
        }
    }
}

/// Given the visibility the window system reports, the operation a toggle
/// must apply and the visibility it will report afterwards: hide a visible
/// surface and report hidden, show a hidden one and report visible.
pub fn toggle_plan(currently_visible: bool) -> (r: (SurfaceOp, bool))
    ensures
        currently_visible ==> r == (SurfaceOp::Hide, false),
        !currently_visible ==> r == (SurfaceOp::Show, true),
        r.1 == !currently_visible,
{
    if currently_visible {
        (SurfaceOp::Hide, false)
    } else {
        (SurfaceOp::Show, true)
    }
}

/// Law: hide on a hidden surface and show on a visible one change
/// nothing, and applying them twice is the same as once.
pub proof fn lemma_show_hide_idempotent(v: Visibility)
    ensures
        v.is_visible_spec() ==> v.after_show() == v,
        !v.is_visible_spec() ==> v.after_hide() == v,
        v.after_show().after_show() == v.after_show(),
        v.after_hide().after_hide() == v.after_hide(),
{
}

/// Law: a toggle always inverts the state — from `Visible` it leads to
/// `Hidden`, from `Hidden` back to `Visible` — so two toggles return to
/// the starting state, and the reported visibility is the new state's.
pub proof fn lemma_toggle_inverts(v: Visibility)
    ensures
        v.after_toggle() != v,
        v.after_toggle().after_toggle() == v,
        v.after_toggle().is_visible_spec() == !v.is_visible_spec(),
{
}

/// The capabilities the one-time elevation of the window handle must
/// establish. Elevation itself is the window system's work; this record
/// is the contract the outer layer applies. Calling elevation twice on
/// one window is undefined and is the caller's responsibility to avoid.
#[derive(Clone, Copy, Debug, PartialEq, Eq, Structural)]
pub struct ElevationConfig {
    /// The surface floats above normal windows.
    pub floating_level: bool,
    /// The surface never steals foreground activation: it can receive key
    /// events without taking focus from the application that holds it.
    pub non_activating: bool,
    /// The surface can still become the key window for its own input.
    pub can_become_key: bool,
    /// The surface stays available while another application is in
    /// full-screen mode.
    pub full_screen_auxiliary: bool,
    /// The surface is a member of every virtual desktop.
    pub join_all_spaces: bool,
    /// The user may resize the surface.
    pub resizable: bool,
    /// Whether the surface disappears when the hosting application is
    /// deactivated; an overlay must never do so.
    pub hides_on_deactivate: bool,
}

impl ElevationConfig {
    /// What an overlay's elevation must guarantee: float, never activate,
    /// survive full-screen and desktop switches, stay up on deactivation.
    pub open spec fn overlay_requirements(self) -> bool {
        &&& self.floating_level
        &&& self.non_activating
        &&& self.can_become_key
        &&& self.full_screen_auxiliary
        &&& self.join_all_spaces
        &&& !self.hides_on_deactivate
    }

    /// The configuration the coordinator elevates its surface with.
    pub open spec fn overlay_spec() -> ElevationConfig {
        ElevationConfig {
            floating_level: true,
            non_activating: true,
            can_become_key: true,
            full_screen_auxiliary: true,
            join_all_spaces: true,
            resizable: true,
            hides_on_deactivate: false,
        }
    }

    /// The overlay's elevation configuration; it meets every requirement.
    pub fn overlay() -> (r: ElevationConfig)
        ensures
            r == ElevationConfig::overlay_spec(),
            r.overlay_requirements(),
    {
        ElevationConfig {
            floating_level: true,
            non_activating: true,
            can_become_key: true,
            full_screen_auxiliary: true,
            join_all_spaces: true,
            resizable: true,
            hides_on_deactivate: false,
        }
    }
}

} // verus!
