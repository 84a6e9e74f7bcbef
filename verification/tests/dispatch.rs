use overlay_core::commands::AppContext;
use overlay_core::shortcuts::KeyCode;
use overlay_core::shortcuts::ModifierSet;
use overlay_core::shortcuts::OverlayAction;
use overlay_core::shortcuts::PressState;
use overlay_core::shortcuts::ShortcutCombo;
use overlay_core::shortcuts::ShortcutRegistry;
use overlay_core::shortcuts::action_name;
use overlay_core::shortcuts::on_event;
use overlay_core::shortcuts::table;

fn combo(control: bool, alt: bool, shift: bool, meta: bool, key: KeyCode) -> ShortcutCombo {
    ShortcutCombo { modifiers: ModifierSet { control, alt, shift, meta }, key }
}

#[test]
fn control_space_press_edge_resolves_to_toggle() {
    let r = on_event(combo(true, false, false, false, KeyCode::Space), PressState::Pressed);
    assert_eq!(r, Some(OverlayAction::ToggleVisibility));
}

#[test]
fn control_space_release_edge_resolves_to_nothing() {
    let r = on_event(combo(true, false, false, false, KeyCode::Space), PressState::Released);
    assert_eq!(r, None);
}

#[test]
fn control_alt_space_press_edge_resolves_to_toggle() {
    let r = on_event(combo(true, true, false, false, KeyCode::Space), PressState::Pressed);
    assert_eq!(r, Some(OverlayAction::ToggleVisibility));
}

#[test]
fn unbound_combinations_resolve_to_nothing() {
    assert_eq!(on_event(combo(true, false, true, false, KeyCode::Space), PressState::Pressed), None);
    assert_eq!(on_event(combo(false, false, false, false, KeyCode::Space), PressState::Pressed), None);
    assert_eq!(on_event(combo(true, false, false, false, KeyCode::Other), PressState::Pressed), None);
    assert_eq!(on_event(combo(true, true, false, true, KeyCode::Space), PressState::Pressed), None);
}

#[test]
fn the_notification_carries_the_action_identifier() {
    assert_eq!(action_name(OverlayAction::ToggleVisibility), "toggle-visibility");
}

#[test]
fn the_table_holds_exactly_the_two_fixed_bindings() {
    let t = table();
    assert_eq!(t.len(), 2);
    assert_eq!(t[0].combo, combo(true, true, false, false, KeyCode::Space));
    assert_eq!(t[1].combo, combo(true, false, false, false, KeyCode::Space));
    assert_eq!(t[0].action, OverlayAction::ToggleVisibility);
    assert_eq!(t[1].action, OverlayAction::ToggleVisibility);
}

#[test]
fn a_fresh_registry_plans_to_register_everything() {
    let reg = ShortcutRegistry::new();
    let plan = reg.enable_plan();
    assert_eq!(plan.len(), 2);
    assert_eq!(plan[0].0, 0);
    assert_eq!(plan[1].0, 1);
    assert_eq!(plan[0].1, table()[0]);
    assert_eq!(plan[1].1, table()[1]);
}

#[test]
fn a_failed_registration_is_reported_and_does_not_stop_the_other() {
    let mut reg = ShortcutRegistry::new();
    let failed = reg.apply_enable(&vec![(0, false), (1, true)]);
    assert_eq!(failed, vec![0]);
    assert!(!reg.is_registered(0));
    assert!(reg.is_registered(1));
}

#[test]
fn the_failure_report_keeps_attempt_order_and_repetition() {
    let mut reg = ShortcutRegistry::new();
    let failed = reg.apply_enable(&vec![(1, false), (0, false), (1, false)]);
    assert_eq!(failed, vec![1, 0, 1]);
    assert!(!reg.is_registered(0));
    assert!(!reg.is_registered(1));
}

#[test]
fn an_enable_only_plans_what_is_not_registered_yet() {
    let mut reg = ShortcutRegistry::new();
    let _ = reg.apply_enable(&vec![(0, false), (1, true)]);
    let plan = reg.enable_plan();
    assert_eq!(plan.len(), 1);
    assert_eq!(plan[0].0, 0);
}

#[test]
fn disable_clears_everything_and_is_idempotent() {
    let mut reg = ShortcutRegistry::new();
    let _ = reg.apply_enable(&vec![(0, true), (1, true)]);
    assert!(reg.is_registered(0) && reg.is_registered(1));
    reg.clear_all();
    assert!(!reg.is_registered(0) && !reg.is_registered(1));
    reg.clear_all();
    assert!(!reg.is_registered(0) && !reg.is_registered(1));
}

#[test]
fn context_records_the_enable_intent_and_the_partial_failure() {
    let ctx = AppContext::new();
    let plan = ctx.shortcut_enable_plan();
    assert_eq!(plan.len(), 2);
    // the first binding is refused by the OS, the second succeeds
    let attempts: Vec<(usize, bool)> = vec![(plan[0].0, false), (plan[1].0, true)];
    let (failed, persist) = ctx.complete_shortcut_enable(&attempts);
    assert_eq!(failed, vec![0]);
    assert!(persist.shortcuts_enabled);
    // only the failed binding is planned again
    let replan = ctx.shortcut_enable_plan();
    assert_eq!(replan.len(), 1);
    assert_eq!(replan[0].0, 0);
}

#[test]
fn context_records_the_disable_intent() {
    let ctx = AppContext::new();
    let (_, persist) = ctx.complete_shortcut_enable(&vec![(0, true), (1, true)]);
    assert!(persist.shortcuts_enabled);
    let persist = ctx.complete_shortcut_disable();
    assert!(!persist.shortcuts_enabled);
    // everything is unregistered again, so everything is planned
    assert_eq!(ctx.shortcut_enable_plan().len(), 2);
}
