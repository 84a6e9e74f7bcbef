//! Overlay geometry/visibility snapshot and its in-memory store.
//!
//! `WindowState` is the last-known desired geometry and visibility of the
//! overlay surface — a cache, not the window system's own truth. The store
//! keeps the positive-dimension invariant by clamping: a snapshot with a
//! zero dimension is stored with that dimension raised to one, so `set`
//! never fails and the store never holds a degenerate size.

use vstd::prelude::*;

verus! {

/// Default width of the overlay surface in logical pixels.
pub const DEFAULT_WIDTH: u64 = 660;

/// Default height of the overlay surface in logical pixels.
pub const DEFAULT_HEIGHT: u64 = 600;

/// Last-known desired geometry and visibility of the overlay surface.
///
/// Lengths and coordinates are logical pixels; the outer layer converts
/// to and from whatever scalar the window system uses.
#[derive(Clone, Copy, Debug, PartialEq, Eq, Structural)]
pub struct WindowState {
    /// Whether the overlay is meant to be on screen.
    pub is_visible: bool,
    /// Whether the overlay is in its expanded layout.
    pub is_expanded: bool,
    /// Surface width; the invariant keeps it positive.
    pub width: u64,
    /// Surface height; the invariant keeps it positive.
    pub height: u64,
    /// Horizontal position of the surface's origin.
    pub x: i64,
    /// Vertical position of the surface's origin.
    pub y: i64,
}

impl WindowState {
    /// The snapshot invariant: both dimensions are positive.
    pub open spec fn wf(self) -> bool {
        self.width > 0 && self.height > 0
    }

    /// The state the overlay starts in: visible, collapsed, default size,
    /// at the origin.
    pub open spec fn default_spec() -> WindowState {
        WindowState {
            is_visible: true,
            is_expanded: false,
            width: DEFAULT_WIDTH as u64,
            height: DEFAULT_HEIGHT as u64,
            x: 0,
            y: 0,
        }
    }

    /// The snapshot with each zero dimension raised to one; every other
    /// field is kept as given.
    pub open spec fn clamped_spec(self) -> WindowState {
        WindowState {
            width: if self.width == 0 { 1 as u64 } else { self.width },
            height: if self.height == 0 { 1 as u64 } else { self.height },
            ..self
        }
    }

    /// Clamps the dimensions so the result satisfies the invariant; a
    /// snapshot that already does is returned unchanged.
    pub fn clamped(self) -> (r: WindowState)
        ensures
            r == self.clamped_spec(),
            r.wf(),
            self.wf() ==> r == self,
    {
        WindowState {
            width: if self.width == 0 { 1 } else { self.width },
            height: if self.height == 0 { 1 } else { self.height },
            ..self
        }
    }
}

impl Default for WindowState {
    /// The process-start snapshot; it satisfies the invariant.
    fn default() -> (r: WindowState)
        ensures
            r == WindowState::default_spec(),
            r.wf(),
    {
        WindowState {
            is_visible: true,
            is_expanded: false,
            width: DEFAULT_WIDTH,
            height: DEFAULT_HEIGHT,
            x: 0,
            y: 0,
        }
    }
}

/// What one `set` makes the held snapshot: the value written, clamped to
/// the positive-dimension invariant, whatever was held before.
pub open spec fn set_transition(state: WindowState, write: WindowState) -> WindowState {
    write.clamped_spec()
}

/// In-memory holder of the overlay's last-known `WindowState`.
///
/// Purely ephemeral: nothing here persists. `set` replaces the whole
/// snapshot and never fails; a snapshot violating the positive-dimension
/// invariant is clamped on the way in (the documented policy choice, in
/// place of rejection), so the held value is always well-formed.
pub struct WindowStateStore {
    current: WindowState,
}

impl View for WindowStateStore {
    type V = WindowState;

    closed spec fn view(&self) -> WindowState {
        self.current
    }
}

impl WindowStateStore {
    /// Every store that can be constructed holds a well-formed snapshot.
    #[verifier::type_invariant]
    spec fn inv(self) -> bool {
        self.current.wf()
    }

    /// A fresh store holds the default snapshot.
    pub fn new() -> (s: WindowStateStore)
        ensures
            s@ == WindowState::default_spec(),
            s@.wf(),
    {
        WindowStateStore { current: WindowState::default() }
    }

    /// Current snapshot by value; never fails, and what comes out is
    /// well-formed.
    pub fn get(&self) -> (r: WindowState)
        ensures
            r == self@,
            r.wf(),
    {
        proof {
            use_type_invariant(self);
        }
        self.current
    }

    /// Atomic whole-snapshot replace; never fails. A well-formed snapshot
    /// is stored exactly as given; one with a zero dimension is stored
    /// clamped.
    pub fn set(&mut self, new: WindowState)
        ensures
            final(self)@ == set_transition(old(self)@, new),
            final(self)@ == new.clamped_spec(),
            new.wf() ==> final(self)@ == new,
            final(self)@.wf(),
    {
        self.current = new.clamped();
    }
}

} // verus!
