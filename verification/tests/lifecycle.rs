use minnty_sound_server::control::http::{
    StreamRuntime, StreamSource, CALIBRATION_STREAM_NAME,
};
use minnty_sound_server::monitor::MonitorRuntime;
use minnty_sound_server::server_state::ServerState;
use minnty_sound_server::testing::net_impairment::NetImpairmentController;

#[test]
fn stream_runtime_start_stop() {
    let mut runtime = StreamRuntime::new();
    assert!(!runtime.status(40110).running);
    let source = runtime.plan_start(&"sink".to_string()).unwrap();
    assert_eq!(source, StreamSource::Capture);
    runtime.commit_start("sink".to_string(), source);
    let status = runtime.status(40110);
    assert!(status.running);
    assert_eq!(status.sink.as_deref(), Some("sink"));
    assert_eq!(status.udp_port, 40110);
    assert_eq!(
        runtime.plan_start(&"other".to_string()),
        Err("Stream already running".to_string())
    );
    assert_eq!(runtime.begin_stop(), Some(StreamSource::Capture));
    assert!(!runtime.status(40110).running);
    assert_eq!(runtime.begin_stop(), None);
}

#[test]
fn calibration_sink_selects_calibration_source() {
    let mut runtime = StreamRuntime::new();
    let source = runtime.plan_start(&CALIBRATION_STREAM_NAME.to_string()).unwrap();
    assert_eq!(source, StreamSource::Calibration);
    runtime.commit_start(CALIBRATION_STREAM_NAME.to_string(), source);
    assert_eq!(
        runtime.status(1).sink.as_deref(),
        Some(CALIBRATION_STREAM_NAME)
    );
    assert_eq!(runtime.begin_stop(), Some(StreamSource::Calibration));
}

#[test]
fn monitor_runtime_start_stop() {
    let mut monitor = MonitorRuntime::new();
    assert!(monitor.begin_start().is_ok());
    assert_eq!(monitor.begin_start(), Err("Monitor already running".to_string()));
    monitor.record_peak(0.5f32.to_bits());
    assert_eq!(f32::from_bits(monitor.peak_bits), 0.5);
    assert!(monitor.finish_stop());
    assert_eq!(monitor.peak_bits, 0);
    assert!(!monitor.active);
    assert!(!monitor.finish_stop());
}

#[test]
fn net_impairment_gap_is_taken_once() {
    let mut controller = NetImpairmentController::new();
    assert!(controller.take_gap_once().is_none());
    assert_eq!(controller.trigger_gap_once_ms(200), Ok(()));
    assert_eq!(controller.take_gap_once().map(|d| d.as_millis()), Some(200));
    assert!(controller.take_gap_once().is_none());
}

#[test]
fn net_impairment_rejects_unsupported_delay() {
    let mut controller = NetImpairmentController::new();
    assert_eq!(
        controller.trigger_gap_once_ms(250),
        Err("Unsupported delay: 250 ms".to_string())
    );
    assert_eq!(
        controller.trigger_gap_once_ms(0),
        Err("Unsupported delay: 0 ms".to_string())
    );
    assert!(controller.take_gap_once().is_none());
    for delay in [50u64, 100, 200, 300, 500, 700, 1000] {
        assert_eq!(controller.trigger_gap_once_ms(delay), Ok(()));
    }
    assert_eq!(controller.take_gap_once().map(|d| d.as_millis()), Some(1000));
}

#[test]
fn server_state_settings() {
    let mut state = ServerState::new();
    assert!(!state.change_server_volume_from_clients());
    assert!(!state.calibration_streaming());
    assert_eq!(state.current_sink(), None);
    state.set_change_server_volume_from_clients(true);
    state.set_calibration_streaming(true);
    state.set_current_sink(Some("sink".to_string()));
    assert!(state.change_server_volume_from_clients());
    assert!(state.calibration_streaming());
    assert_eq!(state.current_sink(), Some("sink".to_string()));
}
