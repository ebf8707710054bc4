//! Media control through MPRIS: which player method each command becomes,
//! the server volume step through the sound server, and the now-playing
//! metadata read from the player's properties. The D-Bus plumbing is
//! supplied by the application through the traits below; the application
//! also runs the volume change that `adjust_volume` returns.

use vstd::prelude::*;
use crate::control::messages::{
    option_string_view, MediaCommand, NowPlayingMetadata, NowPlayingView, PlaybackStatus,
};
use crate::media_control::{
    microseconds_to_ms, mpris_call, mpris_call_for, optional_str_view, parse_playback_status,
    playback_status_named, refarg_microseconds_to_ms, volume_step, volume_step_for,
    volume_target, MprisCall,
};
use crate::text::{chars_of, trim, trimmed};

verus! {

/// The properties of an MPRIS player that the server reads, as plain
/// values: a time property is given as read signed and as read unsigned.
pub struct MprisProperties {
    pub playback_status: Option<String>,
    pub position_as_i64: Option<i64>,
    pub position_as_u64: Option<u64>,
    /// `None` when the `Metadata` property could not be decoded.
    pub metadata: Option<MprisMetadata>,
}

/// The entries of an MPRIS `Metadata` map that the server reads.
pub struct MprisMetadata {
    pub title: Option<String>,
    pub first_artist: Option<String>,
    pub length_as_i64: Option<i64>,
    pub length_as_u64: Option<u64>,
    pub track_id: Option<String>,
}

/// One MPRIS media player on the session bus.
pub trait MprisPlayer {
    /// The player's bus name.
    fn name(&self) -> String;

    /// The player's `PlaybackStatus` property, when it is a string.
    fn playback_status(&self) -> Result<Option<String>, String>;

    /// The `mpris:trackid` of the current track, when there is one.
    fn track_id(&self) -> Result<Option<String>, String>;

    /// Calls the player method for `call`; `SetPosition` applies to
    /// `track_id`.
    fn invoke(&self, call: MprisCall, track_id: Option<String>) -> Result<(), String>;

    /// All player properties the server reads.
    fn properties(&self) -> Result<MprisProperties, String>;
}

/// The session bus, from which the first MPRIS player is taken.
pub trait MprisBus {
    type Player: MprisPlayer;

    fn connect(&self) -> Result<Self::Player, String>;
}

/// What became of a transport command.
pub enum MprisOutcome {
    /// A volume command: these go to `adjust_volume`, not to the player.
    NotForPlayer,
    /// The player method for this call was invoked on the named player.
    Sent { call: MprisCall, player: String },
    /// `Play` was not sent because the named player is already playing.
    AlreadyPlaying { player: String },
    /// Connecting, reading or invoking failed.
    Failed(String),
}

/// What to do with a call once the player's state needed for it is read.
pub enum MprisStep {
    /// Invoke the call, on this track where it needs one.
    Invoke { call: MprisCall, track_id: Option<String> },
    /// `Play` while the player already plays: nothing to send.
    SkipAlreadyPlaying,
    /// The call cannot be made.
    Fail(String),
}

/// The mathematical form of an `MprisStep`.
pub enum MprisStepView {
    Invoke { call: MprisCall, track_id: Option<Seq<char>> },
    SkipAlreadyPlaying,
    Fail(Seq<char>),
}

impl View for MprisStep {
    type V = MprisStepView;

    open spec fn view(&self) -> MprisStepView {
        match self {
            MprisStep::Invoke { call, track_id } => MprisStepView::Invoke {
                call: *call,
                track_id: option_string_view(*track_id),
            },
            MprisStep::SkipAlreadyPlaying => MprisStepView::SkipAlreadyPlaying,
            MprisStep::Fail(e) => MprisStepView::Fail(e@),
        }
    }
}

/// The step for `call`, given the status the player reports (read for
/// `Play` only) and the id of its current track (read for `SetPosition`
/// only): `Play` is skipped exactly while the player reports `Playing`;
/// `SetPosition` applies to the current track and fails without one; every
/// other call is invoked as it is.
pub open spec fn mpris_step_spec(
    call: MprisCall,
    status: Option<Seq<char>>,
    track_id: Option<Seq<char>>,
) -> MprisStepView {
    match call {
        MprisCall::PlayUnlessPlaying => if playback_status_named(status) == PlaybackStatus::Playing {
            MprisStepView::SkipAlreadyPlaying
        } else {
            MprisStepView::Invoke { call, track_id: None }
        },
        MprisCall::SetPosition { .. } => match track_id {
            Some(id) => MprisStepView::Invoke { call, track_id: Some(id) },
            None => MprisStepView::Fail("no MPRIS track ID available"@),
        },
        _ => MprisStepView::Invoke { call, track_id: None },
    }
}

pub fn mpris_step(call: MprisCall, status: Option<&str>, track_id: Option<String>) -> (r: MprisStep)
    ensures
        r@ == mpris_step_spec(call, optional_str_view(status), option_string_view(track_id)),
{
    match call {
        MprisCall::PlayUnlessPlaying => {
            if parse_playback_status(status) == PlaybackStatus::Playing {
                MprisStep::SkipAlreadyPlaying
            } else {
                MprisStep::Invoke { call, track_id: None }
            }
        },
        MprisCall::SetPosition { .. } => match track_id {
            Some(id) => MprisStep::Invoke { call, track_id: Some(id) },
            None => MprisStep::Fail(String::from_str("no MPRIS track ID available")),
        },
        _ => MprisStep::Invoke { call, track_id: None },
    }
}

/// Carries out `call` on the first player: reads what `mpris_step` needs
/// from the player, then does what it decides.
fn dispatch_mpris<B: MprisBus>(bus: &B, call: MprisCall) -> (r: MprisOutcome)
    ensures
        r matches MprisOutcome::Sent { call: c, .. } ==> c == call,
        r matches MprisOutcome::AlreadyPlaying { .. } ==> call == MprisCall::PlayUnlessPlaying,
        !(r is NotForPlayer),
{
    let player = match bus.connect() {
        Ok(p) => p,
        Err(e) => return MprisOutcome::Failed(e),
    };
    let status: Option<String> = match call {
        MprisCall::PlayUnlessPlaying => match player.playback_status() {
            Ok(status) => status,
            Err(e) => return MprisOutcome::Failed(e),
        },
        _ => None,
    };
    let track_id: Option<String> = match call {
        MprisCall::SetPosition { .. } => match player.track_id() {
            Ok(id) => id,
            Err(e) => return MprisOutcome::Failed(e),
        },
        _ => None,
    };
    let status_str = match &status {
        Some(s) => Some(s.as_str()),
        None => None,
    };
    match mpris_step(call, status_str, track_id) {
        MprisStep::Invoke { call: c, track_id: t } => match player.invoke(c, t) {
            Ok(()) => MprisOutcome::Sent { call: c, player: player.name() },
            Err(e) => MprisOutcome::Failed(e),
        },
        MprisStep::SkipAlreadyPlaying => MprisOutcome::AlreadyPlaying { player: player.name() },
        MprisStep::Fail(e) => MprisOutcome::Failed(e),
    }
}

/// Carries out a transport command on the player. Volume commands are left
/// to `adjust_volume`; `Play` is skipped while the player already plays;
/// seeking to a position needs the current track's id.
pub fn handle<B: MprisBus>(bus: &B, command: MediaCommand, argument: i64) -> (r: MprisOutcome)
    ensures
        r is NotForPlayer <==> command.is_volume_command(),
        r matches MprisOutcome::Sent { call: c, .. } ==> mpris_call_for(command, argument) == Some(
            c,
        ),
        r matches MprisOutcome::AlreadyPlaying { .. } ==> command == MediaCommand::Play,
{
    match mpris_call(command, argument) {
        None => MprisOutcome::NotForPlayer,
        Some(call) => dispatch_mpris(bus, call),
    }
}

/// A change of the server volume: `pactl set-sink-volume <sink> <step>`.
#[derive(Clone, Copy, Debug, PartialEq, Eq)]
pub struct SinkVolumeChange<'a> {
    pub sink: &'a str,
    pub step: &'static str,
}

/// The server volume change for a volume command: five percent up or down
/// on `sink`, or on the default sink when `None`. Other commands change
/// nothing. The caller runs the change.
pub fn adjust_volume<'a>(command: MediaCommand, sink: Option<&'a str>) -> (r: Option<
    SinkVolumeChange<'a>,
>)
    ensures
        match volume_step_for(command) {
            None => r is None,
            Some(step) => r matches Some(c) && c.step@ == step && c.sink@ == match sink {
                Some(s) => s@,
                None => "@DEFAULT_SINK@"@,
            },
        },
{
    let step = match volume_step(command) {
        Some(step) => step,
        None => return None,
    };
    Some(SinkVolumeChange { sink: volume_target(sink), step })
}

pub open spec fn optional_text_or_empty(s: Option<String>) -> Seq<char> {
    match s {
        Some(s) => s@,
        None => Seq::empty(),
    }
}

/// The now-playing metadata described by a player's properties: trimmed
/// title and first artist, the playback status, position and length in
/// milliseconds, and the track id. Without decodable metadata, title and
/// artist are empty and length and track id unknown.
pub open spec fn metadata_of(p: MprisProperties) -> NowPlayingView {
    NowPlayingView {
        artist: match p.metadata {
            Some(m) => trim(optional_text_or_empty(m.first_artist)),
            None => Seq::empty(),
        },
        title: match p.metadata {
            Some(m) => trim(optional_text_or_empty(m.title)),
            None => Seq::empty(),
        },
        playback_status: playback_status_named(option_string_view(p.playback_status)),
        position_ms: microseconds_to_ms(p.position_as_i64, p.position_as_u64),
        duration_ms: match p.metadata {
            Some(m) => microseconds_to_ms(m.length_as_i64, m.length_as_u64),
            None => None,
        },
        track_id: match p.metadata {
            Some(m) => option_string_view(m.track_id),
            None => None,
        },
    }
}

fn trimmed_or_empty(s: &Option<String>) -> (r: String)
    ensures
        r@ == trim(optional_text_or_empty(*s)),
{
    match s {
        Some(s) => trimmed(s.as_str()),
        None => {
            let r = String::new();
            assert(trim(Seq::<char>::empty()) =~= Seq::<char>::empty());
            r
        },
    }
}

fn clone_optional_text(s: &Option<String>) -> (r: Option<String>)
    ensures
        option_string_view(r) == option_string_view(*s),
{
    match s {
        Some(s) => Some(s.clone()),
        None => None,
    }
}

/// The announced artist is the player's first `xesam:artist`, trimmed, and
/// the title its `xesam:title`, trimmed; without decodable metadata both
/// are empty. The status is the one the player reports.
pub proof fn lemma_metadata_names(p: MprisProperties)
    ensures
        p.metadata matches Some(md) ==> metadata_of(p).artist == trim(
            optional_text_or_empty(md.first_artist),
        ) && metadata_of(p).title == trim(optional_text_or_empty(md.title)),
        p.metadata is None ==> metadata_of(p).artist.len() == 0 && metadata_of(p).title.len() == 0,
        metadata_of(p).playback_status == playback_status_named(
            option_string_view(p.playback_status),
        ),
{
}

pub fn metadata_from_properties(p: &MprisProperties) -> (m: NowPlayingMetadata)
    ensures
        m@ == metadata_of(*p),
        p.metadata matches Some(md) ==> m.artist@ == trim(optional_text_or_empty(md.first_artist))
            && m.title@ == trim(optional_text_or_empty(md.title)) && option_string_view(m.track_id)
            == option_string_view(md.track_id),
        p.metadata is None ==> m.artist@.len() == 0 && m.title@.len() == 0 && m.track_id is None
            && m.duration_ms is None,
        m.playback_status == playback_status_named(option_string_view(p.playback_status)),
{
    let status = match &p.playback_status {
        Some(s) => Some(s.as_str()),
        None => None,
    };
    let playback_status = parse_playback_status(status);
    let position_ms = refarg_microseconds_to_ms(p.position_as_i64, p.position_as_u64);
    match &p.metadata {
        Some(m) => NowPlayingMetadata {
            artist: trimmed_or_empty(&m.first_artist),
            title: trimmed_or_empty(&m.title),
            playback_status,
            position_ms,
            duration_ms: refarg_microseconds_to_ms(m.length_as_i64, m.length_as_u64),
            track_id: clone_optional_text(&m.track_id),
        },
        None => NowPlayingMetadata {
            artist: String::new(),
            title: String::new(),
            playback_status,
            position_ms,
            duration_ms: None,
            track_id: None,
        },
    }
}

/// Reads what the first MPRIS player is playing; `None` when no player can
/// be reached or its properties cannot be read. What it returns is the
/// metadata that `metadata_of` describes for the properties the player gave.
pub fn now_playing<B: MprisBus>(bus: &B) -> (r: Option<NowPlayingMetadata>)
    ensures
        r matches Some(m) ==> exists|p: MprisProperties| m@ == #[trigger] metadata_of(p),
{
    let player = match bus.connect() {
        Ok(p) => p,
        Err(_) => return None,
    };
    match player.properties() {
        Ok(p) => {
            let m = metadata_from_properties(&p);
            assert(m@ == metadata_of(p));
            Some(m)
        },
        Err(_) => None,
    }
}

/// Bus names of MPRIS players start with this prefix.
pub open spec fn mpris_prefix() -> Seq<char> {
    "org.mpris.MediaPlayer2."@
}

/// The first of `names` that names an MPRIS player.
pub open spec fn first_player(names: Seq<Seq<char>>) -> Option<Seq<char>>
    decreases names.len(),
{
    if names.len() == 0 {
        None
    } else if mpris_prefix().is_prefix_of(names[0]) {
        Some(names[0])
    } else {
        first_player(names.drop_first())
    }
}

fn starts_with_mpris_prefix(name: &String) -> (r: bool)
    ensures
        r == mpris_prefix().is_prefix_of(name@),
{
    let prefix = chars_of("org.mpris.MediaPlayer2.");
    let chars = chars_of(name.as_str());
    if chars.len() < prefix.len() {
        return false;
    }
    let mut k: usize = 0;
    while k < prefix.len()
        invariant
            k <= prefix@.len() <= chars@.len(),
            prefix@ == mpris_prefix(),
            chars@ == name@,
            forall|m: int| 0 <= m < k ==> prefix@[m] == chars@[m],
        decreases prefix@.len() - k,
    {
        if prefix[k] != chars[k] {
            return false;
        }
        k += 1;
    }
    assert(prefix@ =~= chars@.subrange(0, prefix@.len() as int));
    true
}

/// The bus name of the MPRIS player to control: the first of the session
/// bus's `names` that names a player.
pub fn select_player(names: &Vec<String>) -> (r: Result<String, String>)
    ensures
        match first_player(names@.map_values(|n: String| n@)) {
            Some(n) => r matches Ok(s) && s@ == n,
            None => r matches Err(e) && e@ == "no MPRIS media players found"@,
        },
{
    let ghost views = names@.map_values(|n: String| n@);
    let mut k: usize = 0;
    assert(views.skip(0) =~= views);
    while k < names.len()
        invariant
            k <= names@.len(),
            views == names@.map_values(|n: String| n@),
            first_player(views) == first_player(views.skip(k as int)),
        decreases names@.len() - k,
    {
        proof {
            assert(views.skip(k as int).drop_first() =~= views.skip(k as int + 1));
            assert(views.skip(k as int)[0] == names@[k as int]@);
        }
        if starts_with_mpris_prefix(&names[k]) {
            return Ok(names[k].clone());
        }
        k += 1;
    }
    Err(String::from_str("no MPRIS media players found"))
}

} // verus!
