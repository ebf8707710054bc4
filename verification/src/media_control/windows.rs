//! Media control through the Windows system media transport controls: the
//! session request for each command, relative seeking from the current
//! position, and now-playing metadata from a session snapshot. The WinRT
//! calls are supplied by the application through the traits below.

use vstd::prelude::*;
use crate::control::messages::{MediaCommand, NowPlayingMetadata, NowPlayingView, PlaybackStatus};
use crate::media_control::{
    duration_ms, estimated_position, estimated_position_ms, saturating_sub_i64, seek_target_100ns,
    session_call, session_call_for, windows_time_from_unix_100ns, SessionCall,
    WINDOWS_TO_UNIX_EPOCH_100NS,
};
use crate::text::{trim, trimmed};

verus! {

/// A session's playback status as Windows reports it.
#[derive(Clone, Copy, Debug, PartialEq, Eq, Structural)]
pub enum SessionPlaybackStatus {
    Closed,
    Opened,
    Changing,
    Stopped,
    Playing,
    Paused,
}

/// The transport requests a session accepts.
#[derive(Clone, Copy, Debug, PartialEq, Eq, Structural)]
pub enum TransportRequest {
    TogglePlayPause,
    Play,
    Pause,
    Stop,
    SkipNext,
    SkipPrevious,
}

/// What a session reports about the current media, as plain values; times
/// are in 100-ns units.
pub struct SessionSnapshot {
    pub title: String,
    pub artist: String,
    pub playback_status: SessionPlaybackStatus,
    pub position_100ns: i64,
    pub last_updated_100ns: i64,
    pub start_100ns: i64,
    pub end_100ns: i64,
}

/// The current media session.
pub trait MediaSession {
    /// Sends a transport request; `Ok(false)` when the session declined it.
    fn request(&self, request: TransportRequest) -> Result<bool, String>;

    /// The playback position the session last reported.
    fn timeline_position_100ns(&self) -> Result<i64, String>;

    /// Asks the session to move to a position.
    fn change_position(&self, position_100ns: i64) -> Result<bool, String>;

    fn snapshot(&self) -> Result<SessionSnapshot, String>;
}

/// The session manager, which hands out the current session.
pub trait SessionManager {
    type Session: MediaSession;

    fn current_session(&self) -> Result<Self::Session, String>;
}

/// The playback status reported for a session status.
pub open spec fn status_of(s: SessionPlaybackStatus) -> PlaybackStatus {
    match s {
        SessionPlaybackStatus::Playing => PlaybackStatus::Playing,
        SessionPlaybackStatus::Paused => PlaybackStatus::Paused,
        SessionPlaybackStatus::Stopped | SessionPlaybackStatus::Closed => PlaybackStatus::Stopped,
        _ => PlaybackStatus::Unknown,
    }
}

/// A session status is announced as the playback status of the same
/// name: playing as playing, paused as paused, stopped or closed as
/// stopped, and an opening or changing session as unknown.
pub proof fn lemma_session_status_names(s: SessionPlaybackStatus)
    ensures
        s == SessionPlaybackStatus::Playing <==> status_of(s) == PlaybackStatus::Playing,
        s == SessionPlaybackStatus::Paused <==> status_of(s) == PlaybackStatus::Paused,
        (s == SessionPlaybackStatus::Stopped || s == SessionPlaybackStatus::Closed) <==> status_of(
            s,
        ) == PlaybackStatus::Stopped,
        (s == SessionPlaybackStatus::Opened || s == SessionPlaybackStatus::Changing) <==> status_of(
            s,
        ) == PlaybackStatus::Unknown,
{
}

/// Each transport command becomes the session action of the same name:
/// Previous skips back and Next skips forward, Play plays and Pause pauses.
pub proof fn lemma_session_actions_follow_commands(argument: i64)
    ensures
        session_action_for(MediaCommand::PlayPause, argument) == SessionAction::Request(
            TransportRequest::TogglePlayPause,
        ),
        session_action_for(MediaCommand::Play, argument) == SessionAction::Request(
            TransportRequest::Play,
        ),
        session_action_for(MediaCommand::Pause, argument) == SessionAction::Request(
            TransportRequest::Pause,
        ),
        session_action_for(MediaCommand::Stop, argument) == SessionAction::Request(
            TransportRequest::Stop,
        ),
        session_action_for(MediaCommand::Next, argument) == SessionAction::Request(
            TransportRequest::SkipNext,
        ),
        session_action_for(MediaCommand::Previous, argument) == SessionAction::Request(
            TransportRequest::SkipPrevious,
        ),
        session_action_for(MediaCommand::SeekRelativeMs, argument) == (SessionAction::SeekBy {
            delta_ms: argument,
        }),
        session_action_for(MediaCommand::VolumeUp, argument) == SessionAction::Nothing,
        session_action_for(MediaCommand::VolumeDown, argument) == SessionAction::Nothing,
{
}

pub fn playback_status_of(s: SessionPlaybackStatus) -> (r: PlaybackStatus)
    ensures
        r == status_of(s),
{
    match s {
        SessionPlaybackStatus::Playing => PlaybackStatus::Playing,
        SessionPlaybackStatus::Paused => PlaybackStatus::Paused,
        SessionPlaybackStatus::Stopped | SessionPlaybackStatus::Closed => PlaybackStatus::Stopped,
        _ => PlaybackStatus::Unknown,
    }
}

/// What a command asks of the current session.
#[derive(Clone, Copy, Debug, PartialEq, Eq, Structural)]
pub enum SessionAction {
    /// Volume commands are not session requests.
    Nothing,
    Request(TransportRequest),
    /// Move by this many milliseconds from the position the session reports.
    SeekBy { delta_ms: i64 },
    /// Move to this position, in 100-ns units (never negative).
    SeekTo { position_100ns: i64 },
}

pub open spec fn session_action_for(command: MediaCommand, argument: i64) -> SessionAction {
    match session_call_for(command, argument) {
        None => SessionAction::Nothing,
        Some(SessionCall::TogglePlayPause) => SessionAction::Request(
            TransportRequest::TogglePlayPause,
        ),
        Some(SessionCall::Play) => SessionAction::Request(TransportRequest::Play),
        Some(SessionCall::Pause) => SessionAction::Request(TransportRequest::Pause),
        Some(SessionCall::Stop) => SessionAction::Request(TransportRequest::Stop),
        Some(SessionCall::SkipNext) => SessionAction::Request(TransportRequest::SkipNext),
        Some(SessionCall::SkipPrevious) => SessionAction::Request(TransportRequest::SkipPrevious),
        Some(SessionCall::SeekRelative { delta_ms }) => SessionAction::SeekBy { delta_ms },
        Some(SessionCall::SeekTo { position_100ns }) => SessionAction::SeekTo { position_100ns },
    }
}

/// The session action for a command and its argument.
pub fn session_action(command: MediaCommand, argument: i64) -> (r: SessionAction)
    ensures
        r == session_action_for(command, argument),
        r matches SessionAction::SeekTo { position_100ns } ==> position_100ns >= 0,
{
    match session_call(command, argument) {
        None => SessionAction::Nothing,
        Some(SessionCall::TogglePlayPause) => SessionAction::Request(
            TransportRequest::TogglePlayPause,
        ),
        Some(SessionCall::Play) => SessionAction::Request(TransportRequest::Play),
        Some(SessionCall::Pause) => SessionAction::Request(TransportRequest::Pause),
        Some(SessionCall::Stop) => SessionAction::Request(TransportRequest::Stop),
        Some(SessionCall::SkipNext) => SessionAction::Request(TransportRequest::SkipNext),
        Some(SessionCall::SkipPrevious) => SessionAction::Request(TransportRequest::SkipPrevious),
        Some(SessionCall::SeekRelative { delta_ms }) => SessionAction::SeekBy { delta_ms },
        Some(SessionCall::SeekTo { position_100ns }) => SessionAction::SeekTo { position_100ns },
    }
}

/// Carries out a transport command on the current session: what
/// `session_action` decides, a relative seek moving from the position the
/// session reports (`seek_target_100ns`). Volume commands give `Ok(false)`.
pub fn handle<M: SessionManager>(manager: &M, command: MediaCommand, argument: i64) -> (r: Result<
    bool,
    String,
>)
    ensures
        command.is_volume_command() ==> (r is Err || r == Ok::<bool, String>(false)),
{
    let session = match manager.current_session() {
        Ok(s) => s,
        Err(e) => return Err(e),
    };
    match session_action(command, argument) {
        SessionAction::Nothing => Ok(false),
        SessionAction::Request(request) => session.request(request),
        SessionAction::SeekBy { delta_ms } => {
            let current = match session.timeline_position_100ns() {
                Ok(p) => p,
                Err(e) => return Err(e),
            };
            session.change_position(seek_target_100ns(current, delta_ms))
        },
        SessionAction::SeekTo { position_100ns } => session.change_position(position_100ns),
    }
}

/// Server volume changes are not supported on Windows and are dropped.
pub fn adjust_volume(_command: MediaCommand, _sink: Option<&str>) {
}

/// The now-playing metadata described by a session snapshot taken when the
/// clock read `now_100ns` (Windows time).
pub open spec fn metadata_of(s: SessionSnapshot, now_100ns: i64) -> NowPlayingView {
    NowPlayingView {
        artist: trim(s.artist@),
        title: trim(s.title@),
        playback_status: status_of(s.playback_status),
        position_ms: estimated_position(
            s.position_100ns,
            s.last_updated_100ns,
            s.start_100ns,
            s.end_100ns,
            status_of(s.playback_status),
            now_100ns,
        ),
        duration_ms: if s.end_100ns > s.start_100ns {
            Some((saturating_sub_i64(s.end_100ns, s.start_100ns) / 10_000) as u64)
        } else {
            None
        },
        track_id: None,
    }
}

/// The announced artist and title are the session's artist and title,
/// trimmed, and the status the session reports; sessions give no track id.
pub proof fn lemma_snapshot_names(s: SessionSnapshot, now_100ns: i64)
    ensures
        metadata_of(s, now_100ns).artist == trim(s.artist@),
        metadata_of(s, now_100ns).title == trim(s.title@),
        metadata_of(s, now_100ns).playback_status == status_of(s.playback_status),
        metadata_of(s, now_100ns).track_id is None,
{
}

pub fn metadata_from_snapshot(s: &SessionSnapshot, now_100ns: i64) -> (m: NowPlayingMetadata)
    ensures
        m@ == metadata_of(*s, now_100ns),
        m.artist@ == trim(s.artist@),
        m.title@ == trim(s.title@),
        m.playback_status == status_of(s.playback_status),
        m.track_id is None,
{
    let playback_status = playback_status_of(s.playback_status);
    NowPlayingMetadata {
        artist: trimmed(s.artist.as_str()),
        title: trimmed(s.title.as_str()),
        playback_status,
        position_ms: estimated_position_ms(
            s.position_100ns,
            s.last_updated_100ns,
            s.start_100ns,
            s.end_100ns,
            playback_status,
            now_100ns,
        ),
        duration_ms: duration_ms(s.start_100ns, s.end_100ns),
        track_id: None,
    }
}

/// Windows time (100 ns units since 1601) for Unix time `unix_100ns`, as
/// `windows_time_from_unix_100ns` computes it.
pub open spec fn windows_time(unix_100ns: u128) -> i64 {
    if WINDOWS_TO_UNIX_EPOCH_100NS + unix_100ns > i64::MAX {
        i64::MAX
    } else {
        (WINDOWS_TO_UNIX_EPOCH_100NS + unix_100ns) as i64
    }
}

/// Reads what the current session is playing at Unix time
/// `now_unix_100ns`; `None` when there is no session or it cannot be read.
/// What it returns is the metadata that `metadata_of` describes for the
/// snapshot the session gave, at that time.
pub fn now_playing<M: SessionManager>(manager: &M, now_unix_100ns: u128) -> (r: Option<
    NowPlayingMetadata,
>)
    ensures
        r matches Some(m) ==> exists|s: SessionSnapshot|
            m@ == #[trigger] metadata_of(s, windows_time(now_unix_100ns)),
{
    let session = match manager.current_session() {
        Ok(s) => s,
        Err(_) => return None,
    };
    match session.snapshot() {
        Ok(snapshot) => {
            let m = metadata_from_snapshot(&snapshot, windows_time_from_unix_100ns(now_unix_100ns));
            assert(m@ == metadata_of(snapshot, windows_time(now_unix_100ns)));
            Some(m)
        },
        Err(_) => None,
    }
}

} // verus!
