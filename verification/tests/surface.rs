use overlay_core::commands::CommandError;
use overlay_core::commands::VisibilityProbe;
use overlay_core::commands::content_protection_command;
use overlay_core::commands::content_protection_outcome;
use overlay_core::commands::toggle_apply_outcome;
use overlay_core::commands::toggle_visibility_command;
use overlay_core::presenter::ElevationConfig;
use overlay_core::presenter::SurfaceOp;
use overlay_core::presenter::Visibility;
use overlay_core::presenter::toggle_plan;

#[test]
fn the_machine_starts_visible() {
    assert_eq!(Visibility::initial(), Visibility::Visible);
}

#[test]
fn hide_on_hidden_and_show_on_visible_are_successful_no_ops() {
    assert_eq!(Visibility::Hidden.apply_hide(), Visibility::Hidden);
    assert_eq!(Visibility::Visible.apply_show(), Visibility::Visible);
    // and they do change state when there is something to do
    assert_eq!(Visibility::Visible.apply_hide(), Visibility::Hidden);
    assert_eq!(Visibility::Hidden.apply_show(), Visibility::Visible);
}

#[test]
fn toggling_from_visible_reports_false_then_true() {
    let (s1, reported1) = Visibility::initial().toggle();
    assert_eq!(reported1, false);
    assert_eq!(s1, Visibility::Hidden);
    let (s2, reported2) = s1.toggle();
    assert_eq!(reported2, true);
    assert_eq!(s2, Visibility::Visible);
}

#[test]
fn the_toggle_plan_inverts_what_the_window_system_reports() {
    assert_eq!(toggle_plan(true), (SurfaceOp::Hide, false));
    assert_eq!(toggle_plan(false), (SurfaceOp::Show, true));
}

#[test]
fn a_toggle_without_a_window_surfaces_the_missing_window_reason() {
    let r = toggle_visibility_command(VisibilityProbe::NoWindow);
    assert_eq!(r, Err(CommandError::WindowMissing));
    assert_eq!(CommandError::WindowMissing.reason(), "Failed to get main window");
}

#[test]
fn a_refused_visibility_query_is_surfaced() {
    let r = toggle_visibility_command(VisibilityProbe::QueryFailed);
    assert_eq!(r, Err(CommandError::VisibilityQueryFailed));
    assert_eq!(CommandError::VisibilityQueryFailed.reason(), "Failed to check visibility");
}

#[test]
fn a_reported_visibility_yields_the_inverting_operation() {
    assert_eq!(
        toggle_visibility_command(VisibilityProbe::Reported(true)),
        Ok((SurfaceOp::Hide, false))
    );
    assert_eq!(
        toggle_visibility_command(VisibilityProbe::Reported(false)),
        Ok((SurfaceOp::Show, true))
    );
}

#[test]
fn a_refused_apply_surfaces_the_matching_reason() {
    assert_eq!(toggle_apply_outcome(SurfaceOp::Hide, true, false), Ok(false));
    assert_eq!(toggle_apply_outcome(SurfaceOp::Show, true, true), Ok(true));
    assert_eq!(toggle_apply_outcome(SurfaceOp::Hide, false, false), Err(CommandError::HideFailed));
    assert_eq!(toggle_apply_outcome(SurfaceOp::Show, false, true), Err(CommandError::ShowFailed));
    assert_eq!(CommandError::HideFailed.reason(), "Failed to hide window");
    assert_eq!(CommandError::ShowFailed.reason(), "Failed to show window");
}

#[test]
fn content_protection_needs_a_window_and_passes_the_flag_through() {
    assert_eq!(content_protection_command(true, true), Ok(true));
    assert_eq!(content_protection_command(true, false), Ok(false));
    assert_eq!(content_protection_command(false, true), Err(CommandError::WindowMissing));
    assert_eq!(content_protection_outcome(true), Ok(()));
    assert_eq!(
        content_protection_outcome(false),
        Err(CommandError::ContentProtectionFailed)
    );
    assert_eq!(
        CommandError::ContentProtectionFailed.reason(),
        "Failed to update content protection"
    );
}

#[test]
fn registration_failures_have_their_reason() {
    assert_eq!(CommandError::RegistrationFailed.reason(), "Failed to register shortcuts");
}

#[test]
fn the_elevation_config_meets_every_overlay_requirement() {
    let c = ElevationConfig::overlay();
    assert!(c.floating_level);
    assert!(c.non_activating);
    assert!(c.can_become_key);
    assert!(c.full_screen_auxiliary);
    assert!(c.join_all_spaces);
    assert!(c.resizable);
    assert!(!c.hides_on_deactivate);
}
