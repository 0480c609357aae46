use render_scaffold::events::EventAction;
use render_scaffold::events::RecoveryAction;
use render_scaffold::events::SurfaceError;
use render_scaffold::events::WindowEvent;
use render_scaffold::events::recoverable;
use render_scaffold::state::State;
use render_scaffold::state::usable_size;

#[test]
fn usable_size_accepts_only_positive_dimensions() {
    assert!(usable_size(1, 1));
    assert!(usable_size(1280, 720));
    assert!(!usable_size(0, 720));
    assert!(!usable_size(1280, 0));
    assert!(!usable_size(0, 0));
    assert!(!usable_size(-1, 720));
    assert!(!usable_size(1280, -1));
}

#[test]
fn new_state_mirrors_the_framebuffer() {
    let s = State::new((1280, 720));
    assert_eq!(s.size, (1280, 720));
    assert_eq!(s.config_width, 1280);
    assert_eq!(s.config_height, 720);
    assert!(!s.should_close);
}

#[test]
fn resize_applies_a_usable_size() {
    let mut s = State::new((1280, 720));
    let reconfigure = s.resize((800, 600));
    assert!(reconfigure);
    assert_eq!(s.size, (800, 600));
    assert_eq!(s.config_width, 800);
    assert_eq!(s.config_height, 600);
    assert!(!s.should_close);
}

#[test]
fn resize_ignores_a_non_positive_size() {
    let mut s = State::new((1280, 720));
    let reconfigure = s.resize((0, 600));
    assert!(!reconfigure);
    assert_eq!(s.size, (1280, 720));
    assert_eq!(s.config_width, 1280);
    assert_eq!(s.config_height, 720);

    let reconfigure = s.resize((-5, -5));
    assert!(!reconfigure);
    assert_eq!(s.size, (1280, 720));
}

#[test]
fn escape_requests_the_close() {
    let mut s = State::new((1280, 720));
    let a = s.handle_event(WindowEvent::EscapePressed);
    assert_eq!(a, EventAction::CloseRequested);
    assert!(s.should_close);
    assert_eq!(s.size, (1280, 720));
    assert_eq!(s.config_width, 1280);
    assert_eq!(s.config_height, 720);
}

#[test]
fn framebuffer_change_rebuilds_and_reconfigures() {
    let mut s = State::new((1280, 720));
    let a = s.handle_event(WindowEvent::FramebufferSize(1920, 1080));
    assert_eq!(a, EventAction::RebuildSurface { reconfigured: true });
    assert_eq!(s.size, (1920, 1080));
    assert_eq!(s.config_width, 1920);
    assert_eq!(s.config_height, 1080);
    assert!(!s.should_close);
}

#[test]
fn minimized_framebuffer_rebuilds_without_reconfiguring() {
    let mut s = State::new((1280, 720));
    let a = s.handle_event(WindowEvent::FramebufferSize(0, 0));
    assert_eq!(a, EventAction::RebuildSurface { reconfigured: false });
    assert_eq!(s.size, (1280, 720));
    assert_eq!(s.config_width, 1280);
    assert_eq!(s.config_height, 720);
}

#[test]
fn a_move_keeps_the_current_size() {
    let mut s = State::new((1280, 720));
    let a = s.handle_event(WindowEvent::Moved);
    assert_eq!(a, EventAction::RebuildSurface { reconfigured: true });
    assert_eq!(s.size, (1280, 720));
    assert_eq!(s.config_width, 1280);
    assert_eq!(s.config_height, 720);
}

#[test]
fn other_events_are_ignored() {
    let mut s = State::new((1280, 720));
    let a = s.handle_event(WindowEvent::Other);
    assert_eq!(a, EventAction::Ignored);
    assert_eq!(s.size, (1280, 720));
    assert!(!s.should_close);
}

#[test]
fn only_lost_and_outdated_are_recoverable() {
    assert!(recoverable(SurfaceError::Lost));
    assert!(recoverable(SurfaceError::Outdated));
    assert!(!recoverable(SurfaceError::Timeout));
    assert!(!recoverable(SurfaceError::OutOfMemory));
    assert!(!recoverable(SurfaceError::Other));
}

#[test]
fn lost_surface_is_rebuilt_at_the_current_size() {
    let mut s = State::new((1280, 720));
    let a = s.handle_render_error(SurfaceError::Lost);
    assert_eq!(a, RecoveryAction::RebuildSurface { reconfigured: true });
    assert_eq!(s.size, (1280, 720));
    assert_eq!(s.config_width, 1280);
    assert_eq!(s.config_height, 720);
}

#[test]
fn outdated_surface_is_rebuilt() {
    let mut s = State::new((640, 480));
    let a = s.handle_render_error(SurfaceError::Outdated);
    assert_eq!(a, RecoveryAction::RebuildSurface { reconfigured: true });
    assert_eq!(s.config_width, 640);
    assert_eq!(s.config_height, 480);
}

#[test]
fn unrecoverable_errors_are_only_reported() {
    let mut s = State::new((1280, 720));
    assert_eq!(s.handle_render_error(SurfaceError::Timeout), RecoveryAction::ReportError);
    assert_eq!(s.handle_render_error(SurfaceError::OutOfMemory), RecoveryAction::ReportError);
    assert_eq!(s.handle_render_error(SurfaceError::Other), RecoveryAction::ReportError);
    assert_eq!(s.size, (1280, 720));
    assert!(!s.should_close);
}
