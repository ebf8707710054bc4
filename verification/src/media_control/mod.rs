//! Media-control decisions: which player operation a command becomes on
//! Linux (MPRIS) and Windows (system media transport controls), how the
//! server volume is stepped, and how player-reported times are converted.
//! Talking to the player is left to the implementor of `MediaController`.

use vstd::prelude::*;
use crate::control::messages::{MediaCommand, NowPlayingMetadata, PlaybackStatus};

pub mod fallback;
pub mod linux;
pub mod windows;

verus! {

/// Controls the media player of the machine the server runs on.
pub trait MediaController {
    fn handle(&self, command: MediaCommand, argument: i64);

    fn adjust_volume(&self, command: MediaCommand, sink: Option<&str>);

    fn now_playing(&self) -> Option<NowPlayingMetadata>;
}

/// The playback status named by an MPRIS `PlaybackStatus` string.
pub open spec fn playback_status_named(status: Option<Seq<char>>) -> PlaybackStatus {
    match status {
        Some(s) => if s == "Playing"@ {
            PlaybackStatus::Playing
        } else if s == "Paused"@ {
            PlaybackStatus::Paused
        } else if s == "Stopped"@ {
            PlaybackStatus::Stopped
        } else {
            PlaybackStatus::Unknown
        },
        None => PlaybackStatus::Unknown,
    }
}

pub open spec fn optional_str_view(s: Option<&str>) -> Option<Seq<char>> {
    match s {
        Some(s) => Some(s@),
        None => None,
    }
}

pub fn parse_playback_status(status: Option<&str>) -> (r: PlaybackStatus)
    ensures
        r == playback_status_named(optional_str_view(status)),
{
    match status {
        Some(s) => {
            let s = String::from_str(s);
            if s == String::from_str("Playing") {
                PlaybackStatus::Playing
            } else if s == String::from_str("Paused") {
                PlaybackStatus::Paused
            } else if s == String::from_str("Stopped") {
                PlaybackStatus::Stopped
            } else {
                PlaybackStatus::Unknown
            }
        },
        None => PlaybackStatus::Unknown,
    }
}

/// A player time in microseconds, read as a signed value when the player
/// sent one that fits (`as_i64`) and as unsigned otherwise (`as_u64`),
/// converted to whole milliseconds. Negative signed times mean unknown
/// unless an unsigned reading is also available.
pub open spec fn microseconds_to_ms(as_i64: Option<i64>, as_u64: Option<u64>) -> Option<u64> {
    let micros = match as_i64 {
        Some(v) if v >= 0 => Some(v as u64),
        _ => as_u64,
    };
    match micros {
        Some(v) => Some((v / 1000) as u64),
        None => None,
    }
}

pub fn refarg_microseconds_to_ms(as_i64: Option<i64>, as_u64: Option<u64>) -> (r: Option<u64>)
    ensures
        r == microseconds_to_ms(as_i64, as_u64),
{
    let micros = match as_i64 {
        Some(v) if v >= 0 => Some(v as u64),
        _ => as_u64,
    };
    match micros {
        Some(v) => Some(v / 1000),
        None => None,
    }
}

/// `a + b`, saturating at the bounds of `i64`.
pub open spec fn saturating_add_i64(a: i64, b: i64) -> i64 {
    if a + b > i64::MAX {
        i64::MAX
    } else if a + b < i64::MIN {
        i64::MIN
    } else {
        (a + b) as i64
    }
}

/// `a - b`, saturating at the bounds of `i64`.
pub open spec fn saturating_sub_i64(a: i64, b: i64) -> i64 {
    if a - b > i64::MAX {
        i64::MAX
    } else if a - b < i64::MIN {
        i64::MIN
    } else {
        (a - b) as i64
    }
}

/// `a * b`, saturating at the bounds of `i64`.
pub open spec fn saturating_mul_i64(a: i64, b: i64) -> i64 {
    if a * b > i64::MAX {
        i64::MAX
    } else if a * b < i64::MIN {
        i64::MIN
    } else {
        (a * b) as i64
    }
}

pub fn saturating_add(a: i64, b: i64) -> (r: i64)
    ensures
        r == saturating_add_i64(a, b),
{
    let wide = a as i128 + b as i128;
    if wide > i64::MAX as i128 {
        i64::MAX
    } else if wide < i64::MIN as i128 {
        i64::MIN
    } else {
        wide as i64
    }
}

pub fn saturating_mul(a: i64, b: i64) -> (r: i64)
    ensures
        r == saturating_mul_i64(a, b),
{
    let wa = a as i128;
    let wb = b as i128;
    assert(i64::MIN * i64::MAX <= wa * wb <= i64::MIN * i64::MIN) by (nonlinear_arith)
        requires
            i64::MIN <= wa <= i64::MAX,
            i64::MIN <= wb <= i64::MAX,
    ;
    let wide = wa * wb;
    if wide > i64::MAX as i128 {
        i64::MAX
    } else if wide < i64::MIN as i128 {
        i64::MIN
    } else {
        wide as i64
    }
}

/// The MPRIS operations a command can become.
#[derive(Clone, Copy, Debug, PartialEq, Eq, Structural)]
pub enum MprisCall {
    PlayPause,
    /// `Play`, skipped when the player already reports `Playing`.
    PlayUnlessPlaying,
    Pause,
    Stop,
    Next,
    Previous,
    /// `Seek` by this many microseconds.
    Seek { offset_us: i64 },
    /// `SetPosition` on the current track to this many microseconds.
    SetPosition { position_us: i64 },
}

/// The MPRIS call for a command; volume commands are not player commands.
pub open spec fn mpris_call_for(command: MediaCommand, argument: i64) -> Option<MprisCall> {
    match command {
        MediaCommand::PlayPause => Some(MprisCall::PlayPause),
        MediaCommand::Play => Some(MprisCall::PlayUnlessPlaying),
        MediaCommand::Pause => Some(MprisCall::Pause),
        MediaCommand::Stop => Some(MprisCall::Stop),
        MediaCommand::Next => Some(MprisCall::Next),
        MediaCommand::Previous => Some(MprisCall::Previous),
        MediaCommand::SeekRelativeMs => Some(
            MprisCall::Seek { offset_us: saturating_mul_i64(argument, 1000) },
        ),
        MediaCommand::SeekAbsoluteMs => Some(
            MprisCall::SetPosition {
                position_us: saturating_mul_i64(if argument >= 0 { argument } else { 0 }, 1000),
            },
        ),
        MediaCommand::VolumeUp | MediaCommand::VolumeDown => None,
    }
}

pub fn mpris_call(command: MediaCommand, argument: i64) -> (r: Option<MprisCall>)
    ensures
        r == mpris_call_for(command, argument),
{
    match command {
        MediaCommand::PlayPause => Some(MprisCall::PlayPause),
        MediaCommand::Play => Some(MprisCall::PlayUnlessPlaying),
        MediaCommand::Pause => Some(MprisCall::Pause),
        MediaCommand::Stop => Some(MprisCall::Stop),
        MediaCommand::Next => Some(MprisCall::Next),
        MediaCommand::Previous => Some(MprisCall::Previous),
        MediaCommand::SeekRelativeMs => Some(
            MprisCall::Seek { offset_us: saturating_mul(argument, 1000) },
        ),
        MediaCommand::SeekAbsoluteMs => {
            let clamped = if argument >= 0 { argument } else { 0 };
            Some(MprisCall::SetPosition { position_us: saturating_mul(clamped, 1000) })
        },
        MediaCommand::VolumeUp | MediaCommand::VolumeDown => None,
    }
}

/// Each transport command becomes the MPRIS method of the same name, for
/// any argument: Next skips forward and Previous goes back; Play becomes
/// Play (unless already playing); a relative seek moves by the argument in
/// milliseconds (as microseconds, clamped to the `i64` range); an absolute
/// seek goes to the argument, negative ones read as the start; volume
/// commands are not player calls.
pub proof fn lemma_mpris_calls_follow_commands(argument: i64)
    ensures
        mpris_call_for(MediaCommand::PlayPause, argument) == Some(MprisCall::PlayPause),
        mpris_call_for(MediaCommand::Play, argument) == Some(MprisCall::PlayUnlessPlaying),
        mpris_call_for(MediaCommand::Pause, argument) == Some(MprisCall::Pause),
        mpris_call_for(MediaCommand::Stop, argument) == Some(MprisCall::Stop),
        mpris_call_for(MediaCommand::Next, argument) == Some(MprisCall::Next),
        mpris_call_for(MediaCommand::Previous, argument) == Some(MprisCall::Previous),
        mpris_call_for(MediaCommand::SeekRelativeMs, argument) matches Some(
            MprisCall::Seek { offset_us },
        ) && offset_us == if argument * 1000 > i64::MAX {
            i64::MAX as int
        } else if argument * 1000 < i64::MIN {
            i64::MIN as int
        } else {
            argument * 1000
        },
        mpris_call_for(MediaCommand::SeekAbsoluteMs, argument) matches Some(
            MprisCall::SetPosition { position_us },
        ) && position_us == if argument <= 0 {
            0
        } else if argument * 1000 > i64::MAX {
            i64::MAX as int
        } else {
            argument * 1000
        },
        mpris_call_for(MediaCommand::VolumeUp, argument) is None,
        mpris_call_for(MediaCommand::VolumeDown, argument) is None,
{
}

/// Each transport command becomes the session operation of the same name,
/// for any argument: Next skips forward and Previous skips back; a relative
/// seek carries the argument in milliseconds; an absolute seek goes to the
/// argument in 100-ns units, negative ones read as the start and large ones
/// clamped; volume commands are not session operations.
pub proof fn lemma_session_calls_follow_commands(argument: i64)
    ensures
        session_call_for(MediaCommand::PlayPause, argument) == Some(SessionCall::TogglePlayPause),
        session_call_for(MediaCommand::Play, argument) == Some(SessionCall::Play),
        session_call_for(MediaCommand::Pause, argument) == Some(SessionCall::Pause),
        session_call_for(MediaCommand::Stop, argument) == Some(SessionCall::Stop),
        session_call_for(MediaCommand::Next, argument) == Some(SessionCall::SkipNext),
        session_call_for(MediaCommand::Previous, argument) == Some(SessionCall::SkipPrevious),
        session_call_for(MediaCommand::SeekRelativeMs, argument) == Some(
            SessionCall::SeekRelative { delta_ms: argument },
        ),
        session_call_for(MediaCommand::SeekAbsoluteMs, argument) matches Some(
            SessionCall::SeekTo { position_100ns },
        ) && position_100ns == if argument <= 0 {
            0
        } else if argument * 10_000 > i64::MAX {
            i64::MAX as int
        } else {
            argument * 10_000
        },
        session_call_for(MediaCommand::VolumeUp, argument) is None,
        session_call_for(MediaCommand::VolumeDown, argument) is None,
{
}

/// An MPRIS status string names the playback status of the same name;
/// any other string, or none, is unknown.
pub proof fn lemma_status_names(status: Option<Seq<char>>)
    ensures
        playback_status_named(status) == PlaybackStatus::Playing <==> status == Some("Playing"@),
        playback_status_named(status) == PlaybackStatus::Paused <==> status == Some("Paused"@),
        playback_status_named(status) == PlaybackStatus::Stopped <==> status == Some("Stopped"@),
        status is None ==> playback_status_named(status) == PlaybackStatus::Unknown,
{
    reveal_strlit("Playing");
    reveal_strlit("Paused");
    reveal_strlit("Stopped");
    assert("Playing"@[1] == 'l' && "Paused"@[1] == 'a' && "Stopped"@[1] == 't');
}

/// The server volume goes up five percent for VolumeUp and down five
/// percent for VolumeDown; other commands do not change it.
pub proof fn lemma_volume_steps(command: MediaCommand)
    ensures
        command == MediaCommand::VolumeUp ==> volume_step_for(command) == Some("+5%"@),
        command == MediaCommand::VolumeDown ==> volume_step_for(command) == Some("-5%"@),
        volume_step_for(command) is Some <==> command.is_volume_command(),
{
}

/// Whether `Play` should be sent given the player's current status.
pub fn should_send_play(current: PlaybackStatus) -> (r: bool)
    ensures
        r == (current != PlaybackStatus::Playing),
{
    current != PlaybackStatus::Playing
}

/// The system-media-transport operations a command can become on Windows.
#[derive(Clone, Copy, Debug, PartialEq, Eq, Structural)]
pub enum SessionCall {
    TogglePlayPause,
    Play,
    Pause,
    Stop,
    SkipNext,
    SkipPrevious,
    /// Move by this many milliseconds from the current position.
    SeekRelative { delta_ms: i64 },
    /// Move to this position, in 100-ns units.
    SeekTo { position_100ns: i64 },
}

pub open spec fn session_call_for(command: MediaCommand, argument: i64) -> Option<SessionCall> {
    match command {
        MediaCommand::PlayPause => Some(SessionCall::TogglePlayPause),
        MediaCommand::Play => Some(SessionCall::Play),
        MediaCommand::Pause => Some(SessionCall::Pause),
        MediaCommand::Stop => Some(SessionCall::Stop),
        MediaCommand::Next => Some(SessionCall::SkipNext),
        MediaCommand::Previous => Some(SessionCall::SkipPrevious),
        MediaCommand::SeekRelativeMs => Some(SessionCall::SeekRelative { delta_ms: argument }),
        MediaCommand::SeekAbsoluteMs => Some(
            SessionCall::SeekTo {
                position_100ns: saturating_mul_i64(if argument >= 0 { argument } else { 0 }, 10_000),
            },
        ),
        MediaCommand::VolumeUp | MediaCommand::VolumeDown => None,
    }
}

pub fn session_call(command: MediaCommand, argument: i64) -> (r: Option<SessionCall>)
    ensures
        r == session_call_for(command, argument),
{
    match command {
        MediaCommand::PlayPause => Some(SessionCall::TogglePlayPause),
        MediaCommand::Play => Some(SessionCall::Play),
        MediaCommand::Pause => Some(SessionCall::Pause),
        MediaCommand::Stop => Some(SessionCall::Stop),
        MediaCommand::Next => Some(SessionCall::SkipNext),
        MediaCommand::Previous => Some(SessionCall::SkipPrevious),
        MediaCommand::SeekRelativeMs => Some(SessionCall::SeekRelative { delta_ms: argument }),
        MediaCommand::SeekAbsoluteMs => {
            let clamped = if argument >= 0 { argument } else { 0 };
            Some(SessionCall::SeekTo { position_100ns: saturating_mul(clamped, 10_000) })
        },
        MediaCommand::VolumeUp | MediaCommand::VolumeDown => None,
    }
}

/// The target of a relative seek of `delta_ms` from `current_100ns`, in
/// 100-ns units, never before the start.
pub open spec fn relative_seek_target(current_100ns: i64, delta_ms: i64) -> i64 {
    let t = saturating_add_i64(current_100ns, saturating_mul_i64(delta_ms, 10_000));
    if t >= 0 {
        t
    } else {
        0
    }
}

pub fn seek_target_100ns(current_100ns: i64, delta_ms: i64) -> (r: i64)
    ensures
        r == relative_seek_target(current_100ns, delta_ms),
{
    let t = saturating_add(current_100ns, saturating_mul(delta_ms, 10_000));
    if t >= 0 {
        t
    } else {
        0
    }
}

/// The playback position to report, in milliseconds: the position the
/// player last reported, advanced by the time since that report while
/// playing, capped at the track length when that is known (a length beyond
/// `i64::MAX` 100-ns units is taken as `i64::MAX`). `None` when the result
/// is negative.
pub open spec fn estimated_position(
    position_100ns: i64,
    last_updated_100ns: i64,
    start_100ns: i64,
    end_100ns: i64,
    playback_status: PlaybackStatus,
    now_100ns: i64,
) -> Option<u64> {
    let elapsed = saturating_sub_i64(now_100ns, last_updated_100ns);
    let advanced = if playback_status == PlaybackStatus::Playing {
        saturating_add_i64(position_100ns, if elapsed >= 0 { elapsed } else { 0 })
    } else {
        position_100ns
    };
    let length = saturating_sub_i64(end_100ns, start_100ns);
    let capped = if end_100ns > start_100ns && advanced > length {
        length
    } else {
        advanced
    };
    if capped >= 0 {
        Some((capped / 10_000) as u64)
    } else {
        None
    }
}

/// `a - b`, saturating at the bounds of `i64`.
pub fn saturating_sub(a: i64, b: i64) -> (r: i64)
    ensures
        r == saturating_sub_i64(a, b),
{
    let wide = a as i128 - b as i128;
    if wide > i64::MAX as i128 {
        i64::MAX
    } else if wide < i64::MIN as i128 {
        i64::MIN
    } else {
        wide as i64
    }
}

pub fn estimated_position_ms(
    position_100ns: i64,
    last_updated_100ns: i64,
    start_100ns: i64,
    end_100ns: i64,
    playback_status: PlaybackStatus,
    now_100ns: i64,
) -> (r: Option<u64>)
    ensures
        r == estimated_position(
            position_100ns,
            last_updated_100ns,
            start_100ns,
            end_100ns,
            playback_status,
            now_100ns,
        ),
{
    let mut position = position_100ns;
    if playback_status == PlaybackStatus::Playing {
        let elapsed = saturating_sub(now_100ns, last_updated_100ns);
        position = saturating_add(position, if elapsed >= 0 { elapsed } else { 0 });
    }
    if end_100ns > start_100ns {
        let length = saturating_sub(end_100ns, start_100ns);
        if position > length {
            position = length;
        }
    }
    if position >= 0 {
        Some(position as u64 / 10_000)
    } else {
        None
    }
}

/// The track length in milliseconds, when the end lies after the start
/// (a length beyond `i64::MAX` 100-ns units is taken as `i64::MAX`).
pub fn duration_ms(start_100ns: i64, end_100ns: i64) -> (r: Option<u64>)
    ensures
        r == if end_100ns > start_100ns {
            Some((saturating_sub_i64(end_100ns, start_100ns) / 10_000) as u64)
        } else {
            None
        },
{
    if end_100ns > start_100ns {
        Some(saturating_sub(end_100ns, start_100ns) as u64 / 10_000)
    } else {
        None
    }
}

/// 100-ns intervals from 1601-01-01 (the Windows epoch) to 1970-01-01.
pub const WINDOWS_TO_UNIX_EPOCH_100NS: i64 = 116_444_736_000_000_000;

/// A Unix time in 100-ns units as a Windows time, saturating at `i64::MAX`.
pub fn windows_time_from_unix_100ns(unix_100ns: u128) -> (r: i64)
    ensures
        r == if WINDOWS_TO_UNIX_EPOCH_100NS + unix_100ns > i64::MAX {
            i64::MAX as int
        } else {
            WINDOWS_TO_UNIX_EPOCH_100NS + unix_100ns
        },
{
    let capped: i64 = if unix_100ns > i64::MAX as u128 { i64::MAX } else { unix_100ns as i64 };
    saturating_add(WINDOWS_TO_UNIX_EPOCH_100NS, capped)
}

/// How a volume command steps the server's output on Linux (`pactl
/// set-sink-volume <sink> <step>`): five percent up or down, on the given
/// sink or the default one.
pub open spec fn volume_step_for(command: MediaCommand) -> Option<Seq<char>> {
    match command {
        MediaCommand::VolumeUp => Some("+5%"@),
        MediaCommand::VolumeDown => Some("-5%"@),
        _ => None,
    }
}

pub fn volume_step(command: MediaCommand) -> (r: Option<&'static str>)
    ensures
        optional_str_view(r) == volume_step_for(command),
{
    match command {
        MediaCommand::VolumeUp => Some("+5%"),
        MediaCommand::VolumeDown => Some("-5%"),
        _ => None,
    }
}

/// The sink a volume change applies to: the given one, else the default.
pub fn volume_target<'a>(sink: Option<&'a str>) -> (r: &'a str)
    ensures
        r@ == match sink {
            Some(s) => s@,
            None => "@DEFAULT_SINK@"@,
        },
{
    match sink {
        Some(s) => s,
        None => "@DEFAULT_SINK@",
    }
}

/// Whether the Linux controller sends a command to the player at all:
/// volume commands are handled by `adjust_volume` instead.
pub fn forwards_to_player(command: MediaCommand) -> (r: bool)
    ensures
        r == !command.is_volume_command(),
{
    !command.is_volume()
}

} // verus!
