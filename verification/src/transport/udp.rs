//! Decisions of the UDP server: what to answer to each control packet, whom
//! to forward volume commands to, when to broadcast now-playing metadata,
//! and the send-statistics window. The socket itself lives with the caller,
//! which performs the returned actions.

use vstd::prelude::*;
use bytes::Bytes;
use crate::buf::{bytes_clone, bytes_view};
use crate::control::messages::{
    build_config_packet, build_media_control_packet, build_now_playing_packet,
    build_status_packet, config_packet, control_packet_meaning, media_control_packet,
    now_playing_packet, option_string_view, parse_control_packet, status_packet, ControlMessage,
    MediaCommand, NowPlayingMetadata, NowPlayingView, PlaybackStatus, StreamConfig,
};
use crate::server_state::ServerState;
use crate::transport::registry::{fresh_clients, is_fresh, ClientRegistry, PeerAddr, CLIENT_TIMEOUT_MS};

verus! {

/// Something the listener must do in answer to a datagram.
pub enum ListenerAction {
    /// Send these bytes back to the sender.
    Reply(Bytes),
    /// Send the sender a time-synchronisation response carrying its own
    /// timestamp and the receive time; the send time is read when sending.
    ReplyTimeSync { client_send_ms: u64, server_receive_ms: u64 },
    /// Send these bytes to each of these clients.
    Forward { packet: Bytes, recipients: Vec<PeerAddr> },
    /// Hand a transport command to the media controller.
    Dispatch { command: MediaCommand, argument: i64 },
    /// Change the server's output volume on this sink (the default sink when
    /// `None`).
    AdjustServerVolume { command: MediaCommand, sink: Option<String> },
}

pub open spec fn optional_metadata_view(m: Option<NowPlayingMetadata>) -> Option<NowPlayingView> {
    match m {
        Some(m) => Some(m@),
        None => None,
    }
}

pub open spec fn optional_bytes_view(b: Option<Bytes>) -> Option<Seq<u8>> {
    match b {
        Some(b) => Some(bytes_view(b)),
        None => None,
    }
}

/// What is announced when no player reports anything.
pub open spec fn empty_now_playing() -> NowPlayingView {
    NowPlayingView {
        artist: Seq::empty(),
        title: Seq::empty(),
        playback_status: PlaybackStatus::Unknown,
        position_ms: None,
        duration_ms: None,
        track_id: None,
    }
}

/// What is announced while the calibration stream runs.
pub open spec fn calibration_now_playing() -> NowPlayingView {
    NowPlayingView {
        artist: Seq::empty(),
        title: "Calibration stream"@,
        playback_status: PlaybackStatus::Playing,
        position_ms: None,
        duration_ms: None,
        track_id: None,
    }
}

/// Whether a poll result repeats the last one announced without playing, so
/// that nothing needs to be sent (a playing track is re-announced on every
/// poll so that clients can follow its position).
pub open spec fn metadata_unchanged(
    polled: Option<NowPlayingView>,
    last: Option<NowPlayingView>,
) -> bool {
    polled == last && !(polled matches Some(m) && m.playback_status == PlaybackStatus::Playing)
}

/// The now-playing announcement state: what was announced last and under
/// which sequence number.
pub struct AnnounceState {
    pub last: Option<NowPlayingView>,
    pub sequence: u64,
}

/// What is announced for a poll result: the metadata, or empty metadata
/// when no player answered.
pub open spec fn announced(polled: Option<NowPlayingView>) -> NowPlayingView {
    match polled {
        Some(m) => m,
        None => empty_now_playing(),
    }
}

/// One poll of the media player: the state after it and the packet it
/// broadcasts, if any. A poll that repeats the last announcement without
/// playing broadcasts nothing; any other is announced under the next
/// (wrapping) sequence number.
pub open spec fn poll_step(s: AnnounceState, polled: Option<NowPlayingView>) -> (AnnounceState, Option<
    Seq<u8>,
>) {
    if metadata_unchanged(polled, s.last) {
        (s, None)
    } else {
        let seq = s.sequence.wrapping_add(1);
        (AnnounceState { last: polled, sequence: seq }, Some(now_playing_packet(seq, announced(polled))))
    }
}

/// The state after a run of polls.
pub open spec fn state_after_polls(s: AnnounceState, polls: Seq<Option<NowPlayingView>>) -> AnnounceState
    decreases polls.len(),
{
    if polls.len() == 0 {
        s
    } else {
        poll_step(state_after_polls(s, polls.drop_last()), polls.last()).0
    }
}

/// What poll `k` of a run broadcasts.
pub open spec fn broadcast_at_poll(s: AnnounceState, polls: Seq<Option<NowPlayingView>>, k: int) -> Option<
    Seq<u8>,
> {
    poll_step(state_after_polls(s, polls.take(k)), polls[k]).1
}

/// The poll result before poll `k`: the last announcement before the run
/// for the first poll.
pub open spec fn previous_poll(
    start: Option<NowPlayingView>,
    polls: Seq<Option<NowPlayingView>>,
    k: int,
) -> Option<NowPlayingView> {
    if k == 0 {
        start
    } else {
        polls[k - 1]
    }
}

/// Whether poll `k` differs from the one before it or is playing.
pub open spec fn poll_announces(start: Option<NowPlayingView>, polls: Seq<Option<NowPlayingView>>, k: int) -> bool {
    !metadata_unchanged(polls[k], previous_poll(start, polls, k))
}

/// How many of the first `k` polls announce.
pub open spec fn announcements_before(
    start: Option<NowPlayingView>,
    polls: Seq<Option<NowPlayingView>>,
    k: int,
) -> nat
    decreases k,
{
    if k <= 0 {
        0
    } else {
        announcements_before(start, polls, k - 1) + if poll_announces(start, polls, k - 1) {
            1nat
        } else {
            0nat
        }
    }
}

/// `seq` advanced `n` times by one, wrapping.
pub open spec fn advance(seq: u64, n: nat) -> u64
    decreases n,
{
    if n == 0 {
        seq
    } else {
        advance(seq, (n - 1) as nat).wrapping_add(1)
    }
}

proof fn lemma_state_after_polls(s: AnnounceState, polls: Seq<Option<NowPlayingView>>, k: int)
    requires
        0 <= k <= polls.len(),
    ensures
        state_after_polls(s, polls.take(k)) == (AnnounceState {
            last: previous_poll(s.last, polls, k),
            sequence: advance(s.sequence, announcements_before(s.last, polls, k)),
        }),
    decreases k,
{
    if k > 0 {
        lemma_state_after_polls(s, polls, k - 1);
        assert(polls.take(k).drop_last() =~= polls.take(k - 1));
        assert(polls.take(k).last() == polls[k - 1]);
    }
}

/// Over successive polls of the media player, starting from announcement
/// state `s`: poll `k` is broadcast exactly when it differs from the poll
/// before it (from the last announcement, for the first poll) or reports
/// playing, and then as the now-playing packet of that poll (empty metadata
/// when no player answered) under the start sequence number advanced once
/// per broadcast so far, this one included.
pub proof fn lemma_polls_broadcast_changes(s: AnnounceState, polls: Seq<Option<NowPlayingView>>, k: int)
    requires
        0 <= k < polls.len(),
    ensures
        broadcast_at_poll(s, polls, k) == if poll_announces(s.last, polls, k) {
            Some(
                now_playing_packet(
                    advance(s.sequence, announcements_before(s.last, polls, k + 1)),
                    announced(polls[k]),
                ),
            )
        } else {
            None::<Seq<u8>>
        },
{
    lemma_state_after_polls(s, polls, k);
}

/// Frames sent and send errors counted since the last summary.
pub struct UdpStats {
    pub frames_sent_window: u64,
    pub send_errors_window: u64,
    pub last_summary_ms: u64,
}

/// A summary of the send statistics, due every two seconds.
#[derive(Clone, Copy, Debug)]
pub struct UdpSummary {
    pub frames_sent: u64,
    pub send_errors: u64,
    pub active_clients: usize,
}

pub const SUMMARY_INTERVAL_MS: u64 = 2000;

pub struct UdpServer {
    config: StreamConfig,
    session_id: u64,
    server_name: String,
    streaming: bool,
    clients: ClientRegistry,
    stats: UdpStats,
    latest_metadata_packet: Option<Bytes>,
    metadata_sequence: u64,
    last_metadata: Option<NowPlayingMetadata>,
}

impl UdpServer {
    pub closed spec fn wf(&self) -> bool {
        &&& self.clients.wf()
        &&& self.config.frame_size <= u16::MAX
    }

    pub closed spec fn stream_config(&self) -> StreamConfig {
        self.config
    }

    pub closed spec fn session(&self) -> u64 {
        self.session_id
    }

    /// The name the server gives in status replies.
    pub closed spec fn name(&self) -> Seq<char> {
        self.server_name@
    }

    pub closed spec fn is_streaming(&self) -> bool {
        self.streaming
    }

    /// The registered clients and when each was last heard from.
    pub closed spec fn clients_view(&self) -> Map<PeerAddr, u64> {
        self.clients@
    }

    pub closed spec fn stats_view(&self) -> (u64, u64, u64) {
        (self.stats.frames_sent_window, self.stats.send_errors_window, self.stats.last_summary_ms)
    }

    /// The bytes of the last now-playing packet, sent to each new client.
    pub closed spec fn latest_packet(&self) -> Option<Seq<u8>> {
        optional_bytes_view(self.latest_metadata_packet)
    }

    pub closed spec fn sequence(&self) -> u64 {
        self.metadata_sequence
    }

    pub closed spec fn last_announced(&self) -> Option<NowPlayingView> {
        optional_metadata_view(self.last_metadata)
    }

    /// What was announced last, and under which sequence number.
    pub open spec fn announce_state(&self) -> AnnounceState {
        AnnounceState { last: self.last_announced(), sequence: self.sequence() }
    }

    /// Everything but the client registry is as in `other`.
    pub open spec fn same_except_clients(&self, other: &UdpServer) -> bool {
        &&& self.stream_config() == other.stream_config()
        &&& self.session() == other.session()
        &&& self.name() == other.name()
        &&& self.is_streaming() == other.is_streaming()
        &&& self.stats_view() == other.stats_view()
        &&& self.latest_packet() == other.latest_packet()
        &&& self.sequence() == other.sequence()
        &&& self.last_announced() == other.last_announced()
    }

    /// A server for `config` and `session_id`, named `server_name` in its
    /// status replies, with no clients, not streaming, and its statistics
    /// window opened at `now_ms`.
    pub fn new(config: StreamConfig, session_id: u64, now_ms: u64, server_name: String) -> (s: Self)
        requires
            config.frame_size <= u16::MAX,
        ensures
            s.wf(),
            s.stream_config() == config,
            s.session() == session_id,
            s.name() == server_name@,
            !s.is_streaming(),
            s.clients_view() == Map::<PeerAddr, u64>::empty(),
            s.stats_view() == (0u64, 0u64, now_ms),
            s.latest_packet() is None,
            s.sequence() == 0,
            s.last_announced() is None,
    {
        UdpServer {
            config,
            session_id,
            server_name,
            streaming: false,
            clients: ClientRegistry::new(),
            stats: UdpStats { frames_sent_window: 0, send_errors_window: 0, last_summary_ms: now_ms },
            latest_metadata_packet: None,
            metadata_sequence: 0,
            last_metadata: None,
        }
    }

    pub fn config(&self) -> (c: StreamConfig)
        ensures
            c == self.stream_config(),
    {
        self.config
    }

    pub fn set_streaming(&mut self, streaming: bool)
        ensures
            final(self).is_streaming() == streaming,
            final(self).wf() == old(self).wf(),
            final(self).clients_view() == old(self).clients_view(),
            final(self).stream_config() == old(self).stream_config(),
            final(self).session() == old(self).session(),
            final(self).stats_view() == old(self).stats_view(),
            final(self).latest_packet() == old(self).latest_packet(),
            final(self).sequence() == old(self).sequence(),
            final(self).last_announced() == old(self).last_announced(),
    {
        self.streaming = streaming;
    }

    /// Drops clients not heard from within the timeout and returns the
    /// active ones, leaving out `excluded`.
    pub fn active_client_addresses(&mut self, now_ms: u64, excluded: Option<PeerAddr>) -> (r: Vec<
        PeerAddr,
    >)
        requires
            old(self).wf(),
        ensures
            final(self).wf(),
            final(self).same_except_clients(old(self)),
            final(self).clients_view() == fresh_clients(old(self).clients_view(), now_ms),
            forall|a: PeerAddr|
                #[trigger] r@.contains(a) <==> (final(self).clients_view().contains_key(a)
                    && excluded != Some(a)),
            r@.no_duplicates(),
    {
        self.clients.prune_and_list(now_ms, excluded)
    }

    /// Decides what to do with a datagram received from `sender` at
    /// monotonic time `now_ms` and wall-clock time `server_receive_ms`.
    pub fn handle_datagram(
        &mut self,
        data: &[u8],
        sender: PeerAddr,
        now_ms: u64,
        server_receive_ms: u64,
        server_state: &ServerState,
    ) -> (actions: Vec<ListenerAction>)
        requires
            old(self).wf(),
        ensures
            final(self).wf(),
            final(self).same_except_clients(old(self)),
            listener_outcome(
                control_packet_meaning(data@),
                old(self),
                final(self),
                actions@,
                sender,
                now_ms,
                server_receive_ms,
                server_state,
            ),
    {
        let message = parse_control_packet(data);
        let mut actions: Vec<ListenerAction> = Vec::new();
        match message {
            None => {},
            Some(ControlMessage::Hello) => {
                self.clients.register(sender, now_ms);
                actions.push(ListenerAction::Reply(build_config_packet(self.config)));
                match &self.latest_metadata_packet {
                    Some(packet) => {
                        actions.push(ListenerAction::Reply(bytes_clone(packet)));
                    },
                    None => {},
                }
            },
            Some(ControlMessage::KeepAlive) => {
                self.clients.refresh(sender, now_ms);
            },
            Some(ControlMessage::StatusRequest) => {
                actions.push(
                    ListenerAction::Reply(
                        build_status_packet(self.streaming, self.session_id, self.server_name.as_str()),
                    ),
                );
            },
            Some(ControlMessage::Status) => {},
            Some(ControlMessage::TimeSyncRequest { client_send_ms }) => {
                actions.push(ListenerAction::ReplyTimeSync { client_send_ms, server_receive_ms });
            },
            Some(ControlMessage::MediaControl { command, argument }) => {
                self.clients.prune(now_ms);
                if command.is_volume() {
                    let recipients = self.clients.list_except(Some(sender));
                    let packet = build_media_control_packet(command, argument);
                    actions.push(ListenerAction::Forward { packet, recipients });
                    if server_state.change_server_volume_from_clients() {
                        let sink = server_state.current_sink();
                        actions.push(ListenerAction::AdjustServerVolume { command, sink });
                    }
                } else {
                    actions.push(ListenerAction::Dispatch { command, argument });
                }
            },
        }
        actions
    }
}

impl UdpServer {
    pub fn frames_sent_window(&self) -> (n: u64)
        ensures
            n == self.stats_view().0,
    {
        self.stats.frames_sent_window
    }

    pub fn send_errors_window(&self) -> (n: u64)
        ensures
            n == self.stats_view().1,
    {
        self.stats.send_errors_window
    }

    /// Counts one frame sent to `client_count` clients with `send_errors`
    /// failed sends. Once two seconds have passed since the last summary,
    /// returns the window's totals and starts a new window at `now_ms`.
    pub fn record_frame_sent(&mut self, now_ms: u64, send_errors: u64, client_count: usize) -> (r:
        Option<UdpSummary>)
        requires
            old(self).stats_view().0 < u64::MAX,
            old(self).stats_view().1 + send_errors <= u64::MAX,
        ensures
            final(self).wf() == old(self).wf(),
            final(self).clients_view() == old(self).clients_view(),
            final(self).stream_config() == old(self).stream_config(),
            final(self).session() == old(self).session(),
            final(self).is_streaming() == old(self).is_streaming(),
            final(self).latest_packet() == old(self).latest_packet(),
            final(self).sequence() == old(self).sequence(),
            final(self).last_announced() == old(self).last_announced(),
            ({
                let (frames, errors, last) = old(self).stats_view();
                if now_ms >= last && now_ms - last >= SUMMARY_INTERVAL_MS {
                    &&& r == Some(
                        UdpSummary {
                            frames_sent: (frames + 1) as u64,
                            send_errors: (errors + send_errors) as u64,
                            active_clients: client_count,
                        },
                    )
                    &&& final(self).stats_view() == (0u64, 0u64, now_ms)
                } else {
                    &&& r is None
                    &&& final(self).stats_view() == ((frames + 1) as u64, (errors + send_errors) as u64, last)
                }
            }),
    {
        self.stats.frames_sent_window = self.stats.frames_sent_window + 1;
        self.stats.send_errors_window = self.stats.send_errors_window + send_errors;
        if now_ms >= self.stats.last_summary_ms && now_ms - self.stats.last_summary_ms
            >= SUMMARY_INTERVAL_MS {
            let summary = UdpSummary {
                frames_sent: self.stats.frames_sent_window,
                send_errors: self.stats.send_errors_window,
                active_clients: client_count,
            };
            self.stats.frames_sent_window = 0;
            self.stats.send_errors_window = 0;
            self.stats.last_summary_ms = now_ms;
            Some(summary)
        } else {
            None
        }
    }

    /// Takes the result of polling the media player. Unless it repeats the
    /// last announcement without playing, advances the sequence number,
    /// builds the now-playing packet (announcing empty metadata when no
    /// player answered), keeps it for new clients and returns it for
    /// broadcast.
    pub fn on_metadata_poll(&mut self, metadata: Option<NowPlayingMetadata>) -> (r: Option<Bytes>)
        ensures
            final(self).wf() == old(self).wf(),
            final(self).clients_view() == old(self).clients_view(),
            final(self).stream_config() == old(self).stream_config(),
            final(self).session() == old(self).session(),
            final(self).is_streaming() == old(self).is_streaming(),
            final(self).stats_view() == old(self).stats_view(),
            (final(self).announce_state(), optional_bytes_view(r)) == poll_step(
                old(self).announce_state(),
                optional_metadata_view(metadata),
            ),
            metadata_unchanged(optional_metadata_view(metadata), old(self).last_announced()) ==> (
            r is None && final(self).latest_packet() == old(self).latest_packet()
                && final(self).sequence() == old(self).sequence() && final(self).last_announced()
                == old(self).last_announced()),
            !metadata_unchanged(optional_metadata_view(metadata), old(self).last_announced()) ==> ({
                let seq = old(self).sequence().wrapping_add(1);
                let announced = match optional_metadata_view(metadata) {
                    Some(m) => m,
                    None => empty_now_playing(),
                };
                &&& r matches Some(p) && bytes_view(p) == now_playing_packet(seq, announced)
                &&& final(self).latest_packet() == Some(now_playing_packet(seq, announced))
                &&& final(self).sequence() == seq
                &&& final(self).last_announced() == optional_metadata_view(metadata)
            }),
    {
        let same = same_optional_metadata(&metadata, &self.last_metadata);
        let playing = match &metadata {
            Some(m) => m.playback_status == PlaybackStatus::Playing,
            None => false,
        };
        if same && !playing {
            return None;
        }
        self.metadata_sequence = self.metadata_sequence.wrapping_add(1);
        let packet = match &metadata {
            Some(m) => build_now_playing_packet(self.metadata_sequence, m),
            None => {
                let empty = NowPlayingMetadata {
                    artist: String::new(),
                    title: String::new(),
                    playback_status: PlaybackStatus::Unknown,
                    position_ms: None,
                    duration_ms: None,
                    track_id: None,
                };
                assert(empty@ == empty_now_playing());
                build_now_playing_packet(self.metadata_sequence, &empty)
            },
        };
        self.latest_metadata_packet = Some(bytes_clone(&packet));
        self.last_metadata = metadata;
        Some(packet)
    }

    /// Makes the calibration stream the now-playing announcement that new
    /// clients receive, under the next sequence number.
    pub fn publish_calibration_now_playing(&mut self) -> (r: Bytes)
        ensures
            final(self).wf() == old(self).wf(),
            final(self).clients_view() == old(self).clients_view(),
            final(self).stream_config() == old(self).stream_config(),
            final(self).session() == old(self).session(),
            final(self).is_streaming() == old(self).is_streaming(),
            final(self).stats_view() == old(self).stats_view(),
            final(self).last_announced() == old(self).last_announced(),
            final(self).sequence() == old(self).sequence().wrapping_add(1),
            bytes_view(r) == now_playing_packet(final(self).sequence(), calibration_now_playing()),
            final(self).latest_packet() == Some(bytes_view(r)),
    {
        let metadata = NowPlayingMetadata {
            artist: String::new(),
            title: String::from_str("Calibration stream"),
            playback_status: PlaybackStatus::Playing,
            position_ms: None,
            duration_ms: None,
            track_id: None,
        };
        assert(metadata@ == calibration_now_playing());
        self.metadata_sequence = self.metadata_sequence.wrapping_add(1);
        let packet = build_now_playing_packet(self.metadata_sequence, &metadata);
        self.latest_metadata_packet = Some(bytes_clone(&packet));
        packet
    }
}

fn same_optional_text(a: &Option<String>, b: &Option<String>) -> (r: bool)
    ensures
        r == (option_string_view(*a) == option_string_view(*b)),
{
    match (a, b) {
        (Some(x), Some(y)) => *x == *y,
        (None, None) => true,
        _ => false,
    }
}

fn same_optional_u64(a: Option<u64>, b: Option<u64>) -> (r: bool)
    ensures
        r == (a == b),
{
    match (a, b) {
        (Some(x), Some(y)) => x == y,
        (None, None) => true,
        _ => false,
    }
}

fn same_metadata(a: &NowPlayingMetadata, b: &NowPlayingMetadata) -> (r: bool)
    ensures
        r == (a@ == b@),
{
    a.artist == b.artist && a.title == b.title && a.playback_status == b.playback_status
        && same_optional_u64(a.position_ms, b.position_ms) && same_optional_u64(
        a.duration_ms,
        b.duration_ms,
    ) && same_optional_text(&a.track_id, &b.track_id)
}

fn same_optional_metadata(a: &Option<NowPlayingMetadata>, b: &Option<NowPlayingMetadata>) -> (r:
    bool)
    ensures
        r == (optional_metadata_view(*a) == optional_metadata_view(*b)),
{
    match (a, b) {
        (Some(x), Some(y)) => same_metadata(x, y),
        (None, None) => true,
        _ => false,
    }
}

/// What the listener does for each kind of control packet.
pub open spec fn listener_outcome(
    message: Option<ControlMessage>,
    pre: &UdpServer,
    post: &UdpServer,
    actions: Seq<ListenerAction>,
    sender: PeerAddr,
    now_ms: u64,
    server_receive_ms: u64,
    server_state: &ServerState,
) -> bool {
    match message {
        None => post.clients_view() == pre.clients_view() && actions.len() == 0,
        Some(ControlMessage::Hello) => {
            &&& post.clients_view() == pre.clients_view().insert(sender, now_ms)
            &&& actions.len() == if pre.latest_packet() is Some {
                2int
            } else {
                1int
            }
            &&& actions[0] matches ListenerAction::Reply(p) && bytes_view(p) == config_packet(
                pre.stream_config(),
            )
            &&& pre.latest_packet() matches Some(latest) ==> (actions[1] matches ListenerAction::Reply(
                p,
            ) && bytes_view(p) == latest)
        },
        Some(ControlMessage::KeepAlive) => {
            &&& actions.len() == 0
            &&& post.clients_view() == if pre.clients_view().contains_key(sender) {
                pre.clients_view().insert(sender, now_ms)
            } else {
                pre.clients_view()
            }
        },
        Some(ControlMessage::Status) => post.clients_view() == pre.clients_view() && actions.len()
            == 0,
        Some(ControlMessage::StatusRequest) => {
            &&& post.clients_view() == pre.clients_view()
            &&& actions.len() == 1
            &&& actions[0] matches ListenerAction::Reply(p) && bytes_view(p) == status_packet(
                pre.is_streaming(),
                pre.session(),
                pre.name(),
            )
        },
        Some(ControlMessage::TimeSyncRequest { client_send_ms }) => {
            &&& post.clients_view() == pre.clients_view()
            &&& actions == seq![ListenerAction::ReplyTimeSync { client_send_ms, server_receive_ms }]
        },
        Some(ControlMessage::MediaControl { command, argument }) => {
            &&& post.clients_view() == fresh_clients(pre.clients_view(), now_ms)
            &&& if command.is_volume_command() {
                &&& actions.len() == if server_state.volume_from_clients() {
                    2int
                } else {
                    1int
                }
                &&& actions[0] matches ListenerAction::Forward { packet, recipients } && bytes_view(
                    packet,
                ) == media_control_packet(command, argument) && recipients@.no_duplicates() && (
                forall|a: PeerAddr|
                    #[trigger] recipients@.contains(a) <==> (post.clients_view().contains_key(a)
                        && a != sender))
                &&& server_state.volume_from_clients() ==> (actions[1] matches ListenerAction::AdjustServerVolume {
                    command: c,
                    sink,
                } && c == command && option_string_view(sink) == server_state.sink())
            } else {
                actions == seq![ListenerAction::Dispatch { command, argument }]
            }
        },
    }
}

/// A client that said hello receives the volume commands other clients send
/// until it times out, and the sender never gets its own command back.
pub proof fn lemma_hello_then_forwarded_volume(
    s0: UdpServer,
    s1: UdpServer,
    s2: UdpServer,
    listener: PeerAddr,
    sender: PeerAddr,
    t0: u64,
    t1: u64,
    r0: u64,
    r1: u64,
    command: MediaCommand,
    argument: i64,
    hello_actions: Seq<ListenerAction>,
    volume_actions: Seq<ListenerAction>,
    state: ServerState,
)
    requires
        listener_outcome(Some(ControlMessage::Hello), &s0, &s1, hello_actions, listener, t0, r0, &state),
        listener_outcome(
            Some(ControlMessage::MediaControl { command, argument }),
            &s1,
            &s2,
            volume_actions,
            sender,
            t1,
            r1,
            &state,
        ),
        command.is_volume_command(),
        listener != sender,
        t0 <= t1 <= t0 + CLIENT_TIMEOUT_MS,
    ensures
        volume_actions[0] matches ListenerAction::Forward { packet, recipients } && bytes_view(packet)
            == media_control_packet(command, argument) && recipients@.contains(listener)
            && !recipients@.contains(sender),
{
    assert(s1.clients_view().contains_key(listener) && s1.clients_view()[listener] == t0);
    assert(is_fresh(t1, t0));
    assert(s2.clients_view().contains_key(listener));
}

/// A client that says hello after a now-playing announcement (from a
/// player poll or the calibration stream) gets the configuration and then
/// that announcement.
pub proof fn lemma_hello_gets_latest_announcement(
    s0: UdpServer,
    s1: UdpServer,
    announced: Seq<u8>,
    actions: Seq<ListenerAction>,
    sender: PeerAddr,
    now_ms: u64,
    receive_ms: u64,
    state: ServerState,
)
    requires
        s0.latest_packet() == Some(announced),
        listener_outcome(Some(ControlMessage::Hello), &s0, &s1, actions, sender, now_ms, receive_ms, &state),
    ensures
        actions.len() == 2,
        actions[0] matches ListenerAction::Reply(p) && bytes_view(p) == config_packet(
            s0.stream_config(),
        ),
        actions[1] matches ListenerAction::Reply(p) && bytes_view(p) == announced,
{
}

/// A keepalive from an address that never said hello is not answered and
/// does not register it.
pub proof fn lemma_unknown_keepalive_ignored(
    s0: UdpServer,
    s1: UdpServer,
    actions: Seq<ListenerAction>,
    sender: PeerAddr,
    now_ms: u64,
    receive_ms: u64,
    state: ServerState,
)
    requires
        !s0.clients_view().contains_key(sender),
        listener_outcome(Some(ControlMessage::KeepAlive), &s0, &s1, actions, sender, now_ms, receive_ms, &state),
    ensures
        actions.len() == 0,
        !s1.clients_view().contains_key(sender),
        s1.clients_view() == s0.clients_view(),
{
}

/// A client not heard from for longer than the timeout is dropped at the
/// next media command, and no longer receives forwarded volume commands.
pub proof fn lemma_silent_client_expires(
    s0: UdpServer,
    s1: UdpServer,
    client: PeerAddr,
    sender: PeerAddr,
    now_ms: u64,
    receive_ms: u64,
    command: MediaCommand,
    argument: i64,
    actions: Seq<ListenerAction>,
    state: ServerState,
)
    requires
        s0.clients_view().contains_key(client),
        now_ms > s0.clients_view()[client] + CLIENT_TIMEOUT_MS,
        listener_outcome(
            Some(ControlMessage::MediaControl { command, argument }),
            &s0,
            &s1,
            actions,
            sender,
            now_ms,
            receive_ms,
            &state,
        ),
        command.is_volume_command(),
    ensures
        !s1.clients_view().contains_key(client),
        actions[0] matches ListenerAction::Forward { recipients, .. } && !recipients@.contains(client),
{
}

} // verus!
