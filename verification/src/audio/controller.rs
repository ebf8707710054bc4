//! The decisions of the audio thread's command loop: what it does to the
//! capture stream and the sink meters for each command it receives.

use vstd::prelude::*;

verus! {

/// What the command loop knows: whether a capture stream is running.
#[derive(Clone, Copy, Debug, PartialEq, Eq, Structural)]
pub struct AudioLoopState {
    pub capture_active: bool,
}

/// What reaches the command loop.
#[derive(Clone, Copy, Debug, PartialEq, Eq, Structural)]
pub enum AudioEvent {
    /// A request to start capturing a sink.
    StartRequested,
    /// The capture stream that was asked for is running.
    CaptureStarted,
    /// The capture stream that was asked for could not be started.
    CaptureFailed,
    /// A request to stop capturing.
    StopRequested,
    /// No more commands will come.
    Closed,
}

/// What the command loop does, in order.
#[derive(Clone, Copy, Debug, PartialEq, Eq, Structural)]
pub enum AudioAction {
    /// Shut down the running capture stream.
    StopCapture,
    /// Stop the sink meters (nothing when they are stopped).
    StopMeters,
    /// Start the capture stream asked for; its outcome comes back as
    /// `CaptureStarted` or `CaptureFailed`.
    StartCapture,
    /// Give the audio server a moment (100 ms) to release the stream.
    SettleDelay,
    /// Start the sink meters unless they run.
    StartMetersIfStopped,
}

pub open spec fn stop_active(state: AudioLoopState) -> Seq<AudioAction> {
    if state.capture_active {
        seq![AudioAction::StopCapture]
    } else {
        Seq::empty()
    }
}

/// The loop's step: a start first stops any running capture and the
/// meters, then starts the capture; a failed start brings the meters back;
/// a stop stops any running capture, waits a moment, and brings the meters
/// back; when the commands end, a running capture is stopped.
pub open spec fn audio_step_spec(state: AudioLoopState, event: AudioEvent) -> (
    AudioLoopState,
    Seq<AudioAction>,
) {
    match event {
        AudioEvent::StartRequested => (
            AudioLoopState { capture_active: false },
            stop_active(state) + seq![AudioAction::StopMeters, AudioAction::StartCapture],
        ),
        AudioEvent::CaptureStarted => (AudioLoopState { capture_active: true }, Seq::empty()),
        AudioEvent::CaptureFailed => (
            AudioLoopState { capture_active: false },
            seq![AudioAction::StartMetersIfStopped],
        ),
        AudioEvent::StopRequested => (
            AudioLoopState { capture_active: false },
            stop_active(state) + seq![AudioAction::SettleDelay, AudioAction::StartMetersIfStopped],
        ),
        AudioEvent::Closed => (AudioLoopState { capture_active: false }, stop_active(state)),
    }
}

/// The loop's state before any command: no capture running.
pub fn initial_audio_state() -> (s: AudioLoopState)
    ensures
        !s.capture_active,
{
    AudioLoopState { capture_active: false }
}

pub fn audio_command_step(state: AudioLoopState, event: AudioEvent) -> (r: (
    AudioLoopState,
    Vec<AudioAction>,
))
    ensures
        (r.0, r.1@) == audio_step_spec(state, event),
{
    let mut actions: Vec<AudioAction> = Vec::new();
    match event {
        AudioEvent::StartRequested => {
            if state.capture_active {
                actions.push(AudioAction::StopCapture);
            }
            actions.push(AudioAction::StopMeters);
            actions.push(AudioAction::StartCapture);
            proof {
                assert(actions@ =~= stop_active(state) + seq![
                    AudioAction::StopMeters,
                    AudioAction::StartCapture,
                ]);
            }
            (AudioLoopState { capture_active: false }, actions)
        },
        AudioEvent::CaptureStarted => {
            assert(actions@ =~= Seq::<AudioAction>::empty());
            (AudioLoopState { capture_active: true }, actions)
        },
        AudioEvent::CaptureFailed => {
            actions.push(AudioAction::StartMetersIfStopped);
            assert(actions@ =~= seq![AudioAction::StartMetersIfStopped]);
            (AudioLoopState { capture_active: false }, actions)
        },
        AudioEvent::StopRequested => {
            if state.capture_active {
                actions.push(AudioAction::StopCapture);
            }
            actions.push(AudioAction::SettleDelay);
            actions.push(AudioAction::StartMetersIfStopped);
            proof {
                assert(actions@ =~= stop_active(state) + seq![
                    AudioAction::SettleDelay,
                    AudioAction::StartMetersIfStopped,
                ]);
            }
            (AudioLoopState { capture_active: false }, actions)
        },
        AudioEvent::Closed => {
            if state.capture_active {
                actions.push(AudioAction::StopCapture);
            }
            assert(actions@ =~= stop_active(state));
            (AudioLoopState { capture_active: false }, actions)
        },
    }
}

} // verus!
