use app_shell::startup::{
    action_failure, advance, main_window_label, setup_actions, Platform, SetupAction,
    StartupFailure, StartupPhase, VIBRANCY_CORNER_RADIUS,
};

#[test]
fn macos_styling_order() {
    let actions = setup_actions(Platform::MacOs);
    assert_eq!(
        actions,
        vec![
            SetupAction::ApplyVibrancy { corner_radius: 16 },
            SetupAction::RemoveDecorations,
        ]
    );
}

#[test]
fn no_styling_off_macos() {
    assert!(setup_actions(Platform::Other).is_empty());
}

#[test]
fn corner_radius_is_sixteen() {
    assert_eq!(VIBRANCY_CORNER_RADIUS, 16);
}

#[test]
fn main_window_label_is_fixed() {
    assert_eq!(main_window_label(), "main");
}

#[test]
fn missing_window_aborts() {
    let phase = advance(Platform::MacOs, StartupPhase::AwaitingWindow, false);
    assert_eq!(
        phase,
        StartupPhase::Aborted { failure: StartupFailure::MainWindowMissing }
    );
    assert_eq!(
        StartupFailure::MainWindowMissing.message(),
        "main window not found"
    );
}

#[test]
fn happy_path_on_macos_reaches_ready() {
    let mut phase = StartupPhase::AwaitingWindow;
    phase = advance(Platform::MacOs, phase, true);
    assert_eq!(phase, StartupPhase::Styling { next: 0 });
    phase = advance(Platform::MacOs, phase, true);
    assert_eq!(phase, StartupPhase::Styling { next: 1 });
    phase = advance(Platform::MacOs, phase, true);
    assert_eq!(phase, StartupPhase::Ready);
}

#[test]
fn window_alone_readies_other_platforms() {
    let phase = advance(Platform::Other, StartupPhase::AwaitingWindow, true);
    assert_eq!(phase, StartupPhase::Ready);
}

#[test]
fn vibrancy_failure_aborts_with_its_message() {
    let mut phase = advance(Platform::MacOs, StartupPhase::AwaitingWindow, true);
    phase = advance(Platform::MacOs, phase, false);
    assert_eq!(
        phase,
        StartupPhase::Aborted { failure: StartupFailure::VibrancyFailed }
    );
    assert_eq!(
        StartupFailure::VibrancyFailed.message(),
        "Failed to apply vibrancy effect"
    );
}

#[test]
fn decoration_failure_aborts_with_its_message() {
    let mut phase = advance(Platform::MacOs, StartupPhase::AwaitingWindow, true);
    phase = advance(Platform::MacOs, phase, true);
    phase = advance(Platform::MacOs, phase, false);
    assert_eq!(
        phase,
        StartupPhase::Aborted { failure: StartupFailure::DecorationsFailed }
    );
    assert_eq!(
        StartupFailure::DecorationsFailed.message(),
        "Failed to unset decorations"
    );
}

#[test]
fn final_phases_stay_put() {
    assert_eq!(
        advance(Platform::MacOs, StartupPhase::Ready, false),
        StartupPhase::Ready
    );
    let aborted = StartupPhase::Aborted { failure: StartupFailure::MainWindowMissing };
    assert_eq!(advance(Platform::Other, aborted, true), aborted);
}

#[test]
fn failure_of_each_styling_step() {
    assert_eq!(
        action_failure(SetupAction::ApplyVibrancy { corner_radius: 16 }),
        StartupFailure::VibrancyFailed
    );
    assert_eq!(
        action_failure(SetupAction::RemoveDecorations),
        StartupFailure::DecorationsFailed
    );
}
