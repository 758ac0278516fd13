use vkbootstrap::config::resolve_validation;
use vkbootstrap::diag::{
    DiagnosticEvent, LogLevel, SEVERITY_ERROR, SEVERITY_INFO, SEVERITY_VERBOSE, SEVERITY_WARNING,
    level_for_severity, route_event,
};
use vkbootstrap::lifecycle::{
    Controller, HostAction, HostEvent, LifecycleState, ReleaseStep, decide_host_action,
};

#[test]
fn validation_flag_resolution() {
    assert!(resolve_validation(Some("1".to_owned())));
    assert!(resolve_validation(Some("true".to_owned())));
    assert!(!resolve_validation(Some("TRUE".to_owned())));
    assert!(!resolve_validation(Some("yes".to_owned())));
    assert!(!resolve_validation(Some("0".to_owned())));
    assert!(!resolve_validation(Some("".to_owned())));
    assert!(!resolve_validation(None));
}

#[test]
fn severity_mapping_is_one_to_one() {
    assert_eq!(level_for_severity(SEVERITY_ERROR), LogLevel::Error);
    assert_eq!(level_for_severity(SEVERITY_WARNING), LogLevel::Warn);
    assert_eq!(level_for_severity(SEVERITY_INFO), LogLevel::Debug);
    assert_eq!(level_for_severity(SEVERITY_VERBOSE), LogLevel::Trace);
    assert_eq!(level_for_severity(0), LogLevel::Trace);
    assert_eq!(level_for_severity(SEVERITY_ERROR | SEVERITY_WARNING), LogLevel::Error);
    assert_eq!(level_for_severity(SEVERITY_WARNING | SEVERITY_INFO), LogLevel::Warn);
    assert_eq!(level_for_severity(SEVERITY_INFO | SEVERITY_VERBOSE), LogLevel::Debug);
}

#[test]
fn bridge_never_aborts() {
    let event = DiagnosticEvent {
        severity_bits: SEVERITY_ERROR,
        category_bits: 0x2,
        message: "object handle is invalid".to_owned(),
    };
    let (level, abort) = route_event(&event);
    assert_eq!(level, LogLevel::Error);
    assert!(!abort);
}

#[test]
fn teardown_releases_diagnostics_before_instance() {
    let mut controller: Controller<u64, u32> = Controller::new();
    controller.activate(7, Some(9));
    assert_eq!(controller.state(), LifecycleState::Live);
    assert!(controller.has_diagnostics());
    let steps = controller.destroy();
    assert_eq!(steps.len(), 2);
    assert!(matches!(steps[0], ReleaseStep::Diagnostics(9)));
    assert!(matches!(steps[1], ReleaseStep::Instance(7)));
    assert_eq!(controller.state(), LifecycleState::Destroyed);
    assert!(!controller.has_diagnostics());
}

#[test]
fn teardown_without_diagnostics() {
    let mut controller: Controller<u64, u32> = Controller::new();
    controller.activate(42, None);
    let steps = controller.destroy();
    assert_eq!(steps.len(), 1);
    assert!(matches!(steps[0], ReleaseStep::Instance(42)));
    assert_eq!(controller.state(), LifecycleState::Destroyed);
}

#[test]
fn misuse_after_destroy_is_detectable() {
    let mut controller: Controller<u64, u32> = Controller::new();
    assert_eq!(controller.state(), LifecycleState::Uninitialized);
    controller.activate(1, None);
    let _ = controller.destroy();
    // `Destroyed` is terminal and observable: the host's guard sees that a
    // second teardown, or any further handle use, would violate the
    // controller's precondition rather than silently pass.
    assert_eq!(controller.state(), LifecycleState::Destroyed);
    assert_ne!(controller.state(), LifecycleState::Live);
}

#[test]
fn host_actions() {
    assert_eq!(
        decide_host_action(HostEvent::Resumed, LifecycleState::Uninitialized, false),
        HostAction::CreateAndActivate
    );
    assert_eq!(
        decide_host_action(HostEvent::Resumed, LifecycleState::Live, false),
        HostAction::Ignore
    );
    assert_eq!(
        decide_host_action(HostEvent::CloseRequested, LifecycleState::Live, false),
        HostAction::ExitAndDestroy
    );
    assert_eq!(
        decide_host_action(HostEvent::CloseRequested, LifecycleState::Destroyed, false),
        HostAction::Ignore
    );
    assert_eq!(
        decide_host_action(HostEvent::RedrawRequested, LifecycleState::Live, false),
        HostAction::RenderAndRequestRedraw
    );
    assert_eq!(
        decide_host_action(HostEvent::RedrawRequested, LifecycleState::Live, true),
        HostAction::Ignore
    );
    assert_eq!(
        decide_host_action(HostEvent::Other, LifecycleState::Live, false),
        HostAction::Ignore
    );
}

#[test]
fn render_tick_is_a_live_state_no_op() {
    let mut controller: Controller<u64, u32> = Controller::new();
    controller.activate(3, None);
    controller.render_tick();
    controller.render_tick();
    assert_eq!(controller.state(), LifecycleState::Live);
}
