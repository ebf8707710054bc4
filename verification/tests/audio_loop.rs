use minnty_sound_server::audio::controller::{
    audio_command_step, initial_audio_state, AudioAction, AudioEvent,
};

#[test]
fn start_stops_meters_then_starts_capture() {
    let idle = initial_audio_state();
    assert!(!idle.capture_active);
    let (state, actions) = audio_command_step(idle, AudioEvent::StartRequested);
    assert_eq!(actions, vec![AudioAction::StopMeters, AudioAction::StartCapture]);
    let (running, actions) = audio_command_step(state, AudioEvent::CaptureStarted);
    assert!(running.capture_active);
    assert!(actions.is_empty());
    // A second start first stops the running capture.
    let (_, actions) = audio_command_step(running, AudioEvent::StartRequested);
    assert_eq!(
        actions,
        vec![AudioAction::StopCapture, AudioAction::StopMeters, AudioAction::StartCapture]
    );
}

#[test]
fn failed_start_restarts_meters() {
    let (state, _) = audio_command_step(initial_audio_state(), AudioEvent::StartRequested);
    let (state, actions) = audio_command_step(state, AudioEvent::CaptureFailed);
    assert!(!state.capture_active);
    assert_eq!(actions, vec![AudioAction::StartMetersIfStopped]);
}

#[test]
fn stop_stops_capture_waits_and_restarts_meters() {
    let (state, _) = audio_command_step(initial_audio_state(), AudioEvent::StartRequested);
    let (running, _) = audio_command_step(state, AudioEvent::CaptureStarted);
    let (stopped, actions) = audio_command_step(running, AudioEvent::StopRequested);
    assert!(!stopped.capture_active);
    assert_eq!(
        actions,
        vec![AudioAction::StopCapture, AudioAction::SettleDelay, AudioAction::StartMetersIfStopped]
    );
    let (_, actions) = audio_command_step(stopped, AudioEvent::StopRequested);
    assert_eq!(actions, vec![AudioAction::SettleDelay, AudioAction::StartMetersIfStopped]);
    let (_, actions) = audio_command_step(running, AudioEvent::Closed);
    assert_eq!(actions, vec![AudioAction::StopCapture]);
    let (_, actions) = audio_command_step(stopped, AudioEvent::Closed);
    assert!(actions.is_empty());
}
