//! Global-shortcut bindings, dispatch rule, and registration bookkeeping.
//!
//! The binding table is fixed: two key combinations, both mapped to the
//! action that toggles the overlay's visibility. `on_event` is the pure
//! dispatch rule — an action is resolved only on a press edge, never on a
//! release, so one physical press fires at most once. `ShortcutRegistry`
//! records which bindings are currently registered with the OS; actual
//! registration is the outer layer's work, reported back per binding so
//! that one failed registration neither stops nor hides the others.

use vstd::prelude::*;

verus! {

/// The key of a shortcut combination, as far as the table cares: the
/// space bar, or any key the table does not use.
#[derive(Clone, Copy, Debug, PartialEq, Eq, Structural)]
pub enum KeyCode {
    /// The space bar.
    Space,
    /// Any other key; no binding uses one.
    Other,
}

/// The modifier keys held in a shortcut combination.
#[derive(Clone, Copy, Debug, PartialEq, Eq, Structural)]
pub struct ModifierSet {
    /// Control is held.
    pub control: bool,
    /// Alt (Option) is held.
    pub alt: bool,
    /// Shift is held.
    pub shift: bool,
    /// The platform command key is held.
    pub meta: bool,
}

/// A full key combination: modifiers plus key.
#[derive(Clone, Copy, Debug, PartialEq, Eq, Structural)]
pub struct ShortcutCombo {
    /// The modifiers held.
    pub modifiers: ModifierSet,
    /// The non-modifier key.
    pub key: KeyCode,
}

/// Which transition of the combination was observed.
#[derive(Clone, Copy, Debug, PartialEq, Eq, Structural)]
pub enum PressState {
    /// The press edge: key-up to key-down.
    Pressed,
    /// The release edge; it must never fire an action.
    Released,
}

/// The named actions a shortcut can resolve to.
#[derive(Clone, Copy, Debug, PartialEq, Eq, Structural)]
pub enum OverlayAction {
    /// Toggle the overlay surface's visibility.
    ToggleVisibility,
}

/// One entry of the binding table.
#[derive(Clone, Copy, Debug, PartialEq, Eq, Structural)]
pub struct ShortcutBinding {
    /// The combination to register with the OS.
    pub combo: ShortcutCombo,
    /// The action the combination resolves to.
    pub action: OverlayAction,
}

/// Control+Alt+Space, the platform-conventional combination.
pub open spec fn primary_binding_spec() -> ShortcutBinding {
    ShortcutBinding {
        combo: ShortcutCombo {
            modifiers: ModifierSet { control: true, alt: true, shift: false, meta: false },
            key: KeyCode::Space,
        },
        action: OverlayAction::ToggleVisibility,
    }
}

/// Control+Space, the alternate combination.
pub open spec fn alternate_binding_spec() -> ShortcutBinding {
    ShortcutBinding {
        combo: ShortcutCombo {
            modifiers: ModifierSet { control: true, alt: false, shift: false, meta: false },
            key: KeyCode::Space,
        },
        action: OverlayAction::ToggleVisibility,
    }
}

/// The static binding table: both combinations map to the toggle action.
/// Immutable at runtime except for bulk enable/disable, which never edits
/// the table itself, only what is registered.
pub open spec fn table_spec() -> Seq<ShortcutBinding> {
    seq![primary_binding_spec(), alternate_binding_spec()]
}

/// The binding table as a value, exactly `table_spec`.
pub fn table() -> (r: Vec<ShortcutBinding>)
    ensures
        r@ == table_spec(),
{
    let primary = ShortcutBinding {
        combo: ShortcutCombo {
            modifiers: ModifierSet { control: true, alt: true, shift: false, meta: false },
            key: KeyCode::Space,
        },
        action: OverlayAction::ToggleVisibility,
    };
    let alternate = ShortcutBinding {
        combo: ShortcutCombo {
            modifiers: ModifierSet { control: true, alt: false, shift: false, meta: false },
            key: KeyCode::Space,
        },
        action: OverlayAction::ToggleVisibility,
    };
    let mut r: Vec<ShortcutBinding> = Vec::new();
    r.push(primary);
    r.push(alternate);
    proof {
        assert(r@ =~= table_spec());
    }
    r
}

/// The action a combination maps to: a pure lookup against the table.
pub open spec fn action_for_spec(combo: ShortcutCombo) -> Option<OverlayAction> {
    if combo == primary_binding_spec().combo {
        Some(primary_binding_spec().action)
    } else if combo == alternate_binding_spec().combo {
        Some(alternate_binding_spec().action)
    } else {
        None
    }
}

/// The dispatch rule: the mapped action on a press edge, nothing on a
/// release edge.
pub open spec fn on_event_spec(combo: ShortcutCombo, state: PressState) -> Option<OverlayAction> {
    if state is Pressed {
        action_for_spec(combo)
    } else {
        None
    }
}

/// Resolves a recognized combination event to an action.
///
/// Pure lookup against the static table; only the press-edge transition
/// resolves, a release is ignored, so an action never double-fires for
/// one physical press.
pub fn on_event(combo: ShortcutCombo, state: PressState) -> (r: Option<OverlayAction>)
    ensures
        r == on_event_spec(combo, state),
{
    match state {
        PressState::Released => None,
        PressState::Pressed => {
            let primary = ShortcutCombo {
                modifiers: ModifierSet { control: true, alt: true, shift: false, meta: false },
                key: KeyCode::Space,
            };
            let alternate = ShortcutCombo {
                modifiers: ModifierSet { control: true, alt: false, shift: false, meta: false },
                key: KeyCode::Space,
            };
            if combo == primary || combo == alternate {
                Some(OverlayAction::ToggleVisibility)
            } else {
                None
            }
        },
    }
}

/// Law: a release edge never resolves an action, whatever the
/// combination, so one physical press fires at most once; and a press
/// edge of either bound combination resolves to the toggle action.
pub proof fn lemma_press_edge_dispatch(combo: ShortcutCombo)
    ensures
        on_event_spec(combo, PressState::Released) is None,
        combo == primary_binding_spec().combo ==> on_event_spec(combo, PressState::Pressed)
            == Some(OverlayAction::ToggleVisibility),
        combo == alternate_binding_spec().combo ==> on_event_spec(combo, PressState::Pressed)
            == Some(OverlayAction::ToggleVisibility),
{
}

/// The identifier that the process-wide notification carries for an
/// action.
pub fn action_name(action: OverlayAction) -> (r: &'static str)
    ensures
        r@ == "toggle-visibility"@,
{
    match action {
        OverlayAction::ToggleVisibility => "toggle-visibility",
    }
}

/// Bookkeeping of which table entries are currently registered with the
/// OS.
///
/// The view is a sequence of flags parallel to the table: entry `i` is
/// registered exactly when flag `i` is set. The registry itself never
/// talks to the OS; the outer layer attempts each planned registration
/// and reports the outcomes back.
pub struct ShortcutRegistry {
    registered: Vec<bool>,
}

impl View for ShortcutRegistry {
    type V = Seq<bool>;

    closed spec fn view(&self) -> Seq<bool> {
        self.registered@
    }
}

impl ShortcutRegistry {
    /// Well-formed: one flag per table entry.
    pub open spec fn wf(&self) -> bool {
        self@.len() == table_spec().len()
    }

    /// A fresh registry: nothing registered yet.
    pub fn new() -> (s: ShortcutRegistry)
        ensures
            s.wf(),
            forall|i: int| 0 <= i < s@.len() ==> !s@[i],
    {
        let mut registered: Vec<bool> = Vec::new();
        registered.push(false);
        registered.push(false);
        proof {
            assert(registered@.len() == table_spec().len());
        }
        ShortcutRegistry { registered }
    }

    /// The bindings an enable must attempt: exactly the table entries not
    /// already registered, each with its table index, in table order.
    pub fn enable_plan(&self) -> (r: Vec<(usize, ShortcutBinding)>)
        requires
            self.wf(),
        ensures
            forall|k: int| 0 <= k < r@.len() ==> {
                &&& 0 <= #[trigger] r@[k].0 < self@.len()
                &&& !self@[r@[k].0 as int]
                &&& r@[k].1 == table_spec()[r@[k].0 as int]
            },
            forall|k1: int, k2: int|
                0 <= k1 < k2 < r@.len() ==> #[trigger] r@[k1].0 < #[trigger] r@[k2].0,
            forall|i: int|
                0 <= i < self@.len() && !self@[i] ==> exists|k: int|
                    0 <= k < r@.len() && #[trigger] r@[k].0 == i,
    {
        let bindings = table();
        let mut r: Vec<(usize, ShortcutBinding)> = Vec::new();
        let mut i: usize = 0;
        while i < bindings.len()
            invariant
                self.wf(),
                bindings@ == table_spec(),
                0 <= i <= bindings@.len(),
                forall|k: int| 0 <= k < r@.len() ==> {
                    &&& 0 <= #[trigger] r@[k].0 < i
                    &&& !self@[r@[k].0 as int]
                    &&& r@[k].1 == table_spec()[r@[k].0 as int]
                },
                forall|k1: int, k2: int|
                    0 <= k1 < k2 < r@.len() ==> #[trigger] r@[k1].0 < #[trigger] r@[k2].0,
                forall|j: int|
                    0 <= j < i && !self@[j] ==> exists|k: int|
                        0 <= k < r@.len() && #[trigger] r@[k].0 == j,
            decreases bindings@.len() - i,
        {
            let ghost r_before = r@;
            if !self.registered[i] {
                r.push((i, bindings[i]));
                proof {
                    assert(r@ == r_before.push((i, table_spec()[i as int])));
                    assert(r@[r_before.len() as int].0 == i);
                    assert(forall|k: int| 0 <= k < r_before.len() ==> r@[k] == r_before[k]);
                }
            }
            proof {
                assert forall|j: int| 0 <= j < i + 1 && !self@[j] implies exists|k: int|
                    0 <= k < r@.len() && #[trigger] r@[k].0 == j by {
                    if j < i {
                        let k0 = choose|k: int| 0 <= k < r_before.len() && #[trigger] r_before[k].0 == j;
                        assert(r@[k0].0 == j);
                    } else {
                        assert(r@[r@.len() - 1].0 == i);
                    }
                }
            }
            i = i + 1;
        }
        r
    }

    /// The indices of the failed attempts, in attempt order, one per
    /// failed attempt.
    pub open spec fn failed_of(attempts: Seq<(usize, bool)>) -> Seq<usize>
        decreases attempts.len(),
    {
        if attempts.len() == 0 {
            Seq::empty()
        } else {
            let rest = Self::failed_of(attempts.drop_last());
            if attempts.last().1 {
                rest
            } else {
                rest.push(attempts.last().0)
            }
        }
    }

    /// Records the outcomes of an enable's registration attempts.
    ///
    /// Every successful attempt marks its entry registered; a failed one
    /// leaves its entry as it was and lands in the returned report, so a
    /// partial failure is reported, not swallowed, and never prevents the
    /// other entries from being recorded — partial success is expected,
    /// not fatal.
    pub fn apply_enable(&mut self, attempts: &Vec<(usize, bool)>) -> (failed: Vec<usize>)
        requires
            old(self).wf(),
            forall|k: int| 0 <= k < attempts@.len() ==> #[trigger] attempts@[k].0 < old(self)@.len(),
        ensures
            final(self).wf(),
            forall|i: int|
                0 <= i < final(self)@.len() ==> #[trigger] final(self)@[i] == (old(self)@[i]
                    || exists|k: int|
                    0 <= k < attempts@.len() && (#[trigger] attempts@[k]) == (i as usize, true)),
            failed@ == Self::failed_of(attempts@),
            forall|i: usize|
                failed@.contains(i) <==> exists|k: int|
                    0 <= k < attempts@.len() && (#[trigger] attempts@[k]) == (i, false),
    {
        let mut failed: Vec<usize> = Vec::new();
        let mut k: usize = 0;
        while k < attempts.len()
            invariant
                self.wf(),
                forall|k2: int|
                    0 <= k2 < attempts@.len() ==> #[trigger] attempts@[k2].0 < self@.len(),
                0 <= k <= attempts@.len(),
                forall|i: int|
                    0 <= i < self@.len() ==> #[trigger] self@[i] == (old(self)@[i] || exists|k2: int|
                        0 <= k2 < k && (#[trigger] attempts@[k2]) == (i as usize, true)),
                failed@ == Self::failed_of(attempts@.subrange(0, k as int)),
                forall|i: usize|
                    failed@.contains(i) <==> exists|k2: int|
                        0 <= k2 < k && (#[trigger] attempts@[k2]) == (i, false),
            decreases attempts@.len() - k,
        {
            let (index, succeeded) = attempts[k];
            let ghost failed_before = failed@;
            if succeeded {
                self.registered.set(index, true);
            } else {
                failed.push(index);
            }
            proof {
                assert(attempts@[k as int] == (index, succeeded));
                assert(attempts@.subrange(0, k + 1).drop_last() =~= attempts@.subrange(0, k as int));
                assert(attempts@.subrange(0, k + 1).last() == attempts@[k as int]);
                assert(failed@ == Self::failed_of(attempts@.subrange(0, k + 1)));
                assert forall|i: usize| failed@.contains(i) implies exists|k2: int|
                    0 <= k2 < k + 1 && (#[trigger] attempts@[k2]) == (i, false) by {
                    if failed_before.contains(i) {
                        let k0 = choose|k2: int|
                            0 <= k2 < k && (#[trigger] attempts@[k2]) == (i, false);
                        assert(attempts@[k0] == (i, false));
                    } else {
                        assert(!succeeded && i == index);
                        assert(attempts@[k as int] == (i, false));
                    }
                }
                assert forall|i: usize|
                    (exists|k2: int|
                        0 <= k2 < k + 1 && (#[trigger] attempts@[k2]) == (i, false)) implies failed@.contains(
                    i,
                ) by {
                    let k0 = choose|k2: int|
                        0 <= k2 < k + 1 && (#[trigger] attempts@[k2]) == (i, false);
                    if k0 < k {
                        assert(failed_before.contains(i));
                        let j0 = choose|j: int| 0 <= j < failed_before.len() && failed_before[j] == i;
                        assert(failed@[j0] == i);
                    } else {
                        assert(!succeeded && index == i);
                        assert(failed@[failed@.len() - 1] == i);
                    }
                }
            }
            k = k + 1;
        }
        proof {
            assert(attempts@.subrange(0, attempts@.len() as int) =~= attempts@);
        }
        failed
    }

    /// Records a bulk disable: afterwards no entry is registered.
    ///
    /// Unregistration with the OS is best-effort — an entry that was
    /// already unregistered is not an error, and per-entry failures are
    /// ignored — so the record drops every entry unconditionally.
    pub fn clear_all(&mut self)
        requires
            old(self).wf(),
        ensures
            final(self).wf(),
            forall|i: int| 0 <= i < final(self)@.len() ==> !final(self)@[i],
    {
        let mut i: usize = 0;
        while i < self.registered.len()
            invariant
                self.wf(),
                self@.len() == old(self)@.len(),
                0 <= i <= self@.len(),
                forall|j: int| 0 <= j < i ==> !self@[j],
            decreases self@.len() - i,
        {
            self.registered.set(i, false);
            i = i + 1;
        }
    }

    /// Whether a table entry is currently recorded as registered.
    pub fn is_registered(&self, index: usize) -> (r: bool)
        requires
            index < self@.len(),
        ensures
            r == self@[index as int],
    {
        self.registered[index]
    }
}

} // verus!
