//! The UDP control protocol: message codes, the control-packet parser and
//! the packet builders.

use vstd::prelude::*;
use crate::buf::{
    bytes_mut_freeze, bytes_mut_put_i64, bytes_mut_put_slice, bytes_mut_put_u16,
    bytes_mut_put_u32, bytes_mut_put_u64, bytes_mut_put_u8, bytes_mut_view, bytes_mut_with_capacity,
    bytes_view,
};
use crate::codec::{
    be_i64, be_u16, be_u32, be_u64, lemma_i64_roundtrip, lemma_u64_roundtrip, read_u64_be,
    u64_from_be,
};
use vstd::utf8::encode_utf8;
use bytes::Bytes;

verus! {

pub const MAGIC: [u8; 4] = [77u8, 78u8, 84u8, 89u8];
pub const VERSION: u8 = 1;

pub const MSG_HELLO: u8 = 1;
pub const MSG_CONFIG: u8 = 2;
pub const MSG_KEEPALIVE: u8 = 3;
pub const MSG_STATUS: u8 = 4;
pub const MSG_STATUS_REQUEST: u8 = 5;
pub const MSG_TIME_SYNC_REQUEST: u8 = 6;
pub const MSG_TIME_SYNC_RESPONSE: u8 = 7;
pub const MSG_MEDIA_CONTROL: u8 = 8;
pub const MSG_NOW_PLAYING: u8 = 9;

/// The four magic bytes ("MNTY") that open every control packet.
pub open spec fn magic_bytes() -> Seq<u8> {
    seq![77u8, 78u8, 84u8, 89u8]
}

/// The six-byte header of a control packet of kind `msg`.
pub open spec fn header_bytes(msg: u8) -> Seq<u8> {
    magic_bytes() + seq![VERSION, msg]
}

#[derive(Clone, Copy, Debug, PartialEq, Eq, Structural)]
pub enum MediaCommand {
    PlayPause,
    Play,
    Pause,
    Next,
    Previous,
    SeekRelativeMs,
    VolumeUp,
    VolumeDown,
    SeekAbsoluteMs,
    Stop,
}

impl MediaCommand {
    /// The wire code of a command.
    pub open spec fn wire_code(self) -> u8 {
        match self {
            MediaCommand::PlayPause => 1,
            MediaCommand::Play => 2,
            MediaCommand::Pause => 3,
            MediaCommand::Next => 4,
            MediaCommand::Previous => 5,
            MediaCommand::SeekRelativeMs => 6,
            MediaCommand::VolumeUp => 7,
            MediaCommand::VolumeDown => 8,
            MediaCommand::SeekAbsoluteMs => 9,
            MediaCommand::Stop => 10,
        }
    }

    /// The command whose wire code is `code`, if any.
    pub open spec fn from_wire_code(code: u8) -> Option<MediaCommand> {
        if code == 1 {
            Some(MediaCommand::PlayPause)
        } else if code == 2 {
            Some(MediaCommand::Play)
        } else if code == 3 {
            Some(MediaCommand::Pause)
        } else if code == 4 {
            Some(MediaCommand::Next)
        } else if code == 5 {
            Some(MediaCommand::Previous)
        } else if code == 6 {
            Some(MediaCommand::SeekRelativeMs)
        } else if code == 7 {
            Some(MediaCommand::VolumeUp)
        } else if code == 8 {
            Some(MediaCommand::VolumeDown)
        } else if code == 9 {
            Some(MediaCommand::SeekAbsoluteMs)
        } else if code == 10 {
            Some(MediaCommand::Stop)
        } else {
            None
        }
    }

    pub open spec fn is_volume_command(self) -> bool {
        self == MediaCommand::VolumeUp || self == MediaCommand::VolumeDown
    }

    pub fn from_code(code: u8) -> (r: Option<Self>)
        ensures
            r == Self::from_wire_code(code),
    {
        match code {
            1 => Some(MediaCommand::PlayPause),
            2 => Some(MediaCommand::Play),
            3 => Some(MediaCommand::Pause),
            4 => Some(MediaCommand::Next),
            5 => Some(MediaCommand::Previous),
            6 => Some(MediaCommand::SeekRelativeMs),
            7 => Some(MediaCommand::VolumeUp),
            8 => Some(MediaCommand::VolumeDown),
            9 => Some(MediaCommand::SeekAbsoluteMs),
            10 => Some(MediaCommand::Stop),
            _ => None,
        }
    }

    pub fn code(self) -> (r: u8)
        ensures
            r == self.wire_code(),
    {
        match self {
            MediaCommand::PlayPause => 1,
            MediaCommand::Play => 2,
            MediaCommand::Pause => 3,
            MediaCommand::Next => 4,
            MediaCommand::Previous => 5,
            MediaCommand::SeekRelativeMs => 6,
            MediaCommand::VolumeUp => 7,
            MediaCommand::VolumeDown => 8,
            MediaCommand::SeekAbsoluteMs => 9,
            MediaCommand::Stop => 10,
        }
    }

    pub fn is_volume(self) -> (r: bool)
        ensures
            r == self.is_volume_command(),
    {
        match self {
            MediaCommand::VolumeUp | MediaCommand::VolumeDown => true,
            _ => false,
        }
    }
}

/// Every command's code decodes back to that command.
pub proof fn lemma_command_code_roundtrip(command: MediaCommand)
    ensures
        MediaCommand::from_wire_code(command.wire_code()) == Some(command),
{
}

/// A code decodes to a command exactly when it is that command's code.
pub proof fn lemma_command_code_inverse(code: u8)
    ensures
        MediaCommand::from_wire_code(code) matches Some(c) ==> c.wire_code() == code,
        MediaCommand::from_wire_code(code) is Some <==> 1 <= code <= 10,
{
}

#[derive(Clone, Copy, Debug)]
pub struct StreamConfig {
    pub udp_port: u16,
    pub sample_rate: u32,
    pub channels: u8,
    pub frame_size: usize,
    pub pcm_queue_depth: usize,
}

pub const DEFAULT_UDP_PORT: u16 = 40110;
pub const DEFAULT_SAMPLE_RATE: u32 = 48000;
pub const DEFAULT_CHANNELS: u8 = 2;
pub const DEFAULT_FRAME_SIZE: usize = 480;
pub const DEFAULT_PCM_QUEUE_DEPTH: usize = 64;

/// The stream configuration the server runs with: UDP port 40110, 48 kHz
/// stereo, 480-frame packets and a 64-frame PCM queue.
impl Default for StreamConfig {
    fn default() -> (config: Self)
        ensures
            config.udp_port == DEFAULT_UDP_PORT,
            config.sample_rate == DEFAULT_SAMPLE_RATE,
            config.channels == DEFAULT_CHANNELS,
            config.frame_size == DEFAULT_FRAME_SIZE,
            config.pcm_queue_depth == DEFAULT_PCM_QUEUE_DEPTH,
    {
        StreamConfig {
            udp_port: DEFAULT_UDP_PORT,
            sample_rate: DEFAULT_SAMPLE_RATE,
            channels: DEFAULT_CHANNELS,
            frame_size: DEFAULT_FRAME_SIZE,
            pcm_queue_depth: DEFAULT_PCM_QUEUE_DEPTH,
        }
    }
}

#[derive(Clone, Copy, Debug, PartialEq, Eq, Structural)]
pub enum PlaybackStatus {
    Unknown,
    Playing,
    Paused,
    Stopped,
}

impl PlaybackStatus {
    pub open spec fn wire_code(self) -> u8 {
        match self {
            PlaybackStatus::Unknown => 0,
            PlaybackStatus::Playing => 1,
            PlaybackStatus::Paused => 2,
            PlaybackStatus::Stopped => 3,
        }
    }

    pub fn code(self) -> (r: u8)
        ensures
            r == self.wire_code(),
    {
        match self {
            PlaybackStatus::Unknown => 0,
            PlaybackStatus::Playing => 1,
            PlaybackStatus::Paused => 2,
            PlaybackStatus::Stopped => 3,
        }
    }
}

#[derive(Clone, Debug, PartialEq, Eq)]
pub struct NowPlayingMetadata {
    pub artist: String,
    pub title: String,
    pub playback_status: PlaybackStatus,
    pub position_ms: Option<u64>,
    pub duration_ms: Option<u64>,
    pub track_id: Option<String>,
}

/// The abstract content of a `NowPlayingMetadata`: its strings as character
/// sequences.
pub struct NowPlayingView {
    pub artist: Seq<char>,
    pub title: Seq<char>,
    pub playback_status: PlaybackStatus,
    pub position_ms: Option<u64>,
    pub duration_ms: Option<u64>,
    pub track_id: Option<Seq<char>>,
}

pub open spec fn option_string_view(s: Option<String>) -> Option<Seq<char>> {
    match s {
        Some(s) => Some(s@),
        None => None,
    }
}

impl View for NowPlayingMetadata {
    type V = NowPlayingView;

    open spec fn view(&self) -> NowPlayingView {
        NowPlayingView {
            artist: self.artist@,
            title: self.title@,
            playback_status: self.playback_status,
            position_ms: self.position_ms,
            duration_ms: self.duration_ms,
            track_id: option_string_view(self.track_id),
        }
    }
}

#[derive(Clone, Copy, Debug)]
pub enum ControlMessage {
    Hello,
    KeepAlive,
    Status,
    StatusRequest,
    TimeSyncRequest { client_send_ms: u64 },
    MediaControl { command: MediaCommand, argument: i64 },
}

/// What a datagram means as a control packet: `None` when it is too short,
/// lacks the magic or version, carries an unknown kind, or is truncated.
pub open spec fn control_packet_meaning(data: Seq<u8>) -> Option<ControlMessage> {
    if data.len() < 6 || data.subrange(0, 4) != magic_bytes() || data[4] != VERSION {
        None
    } else if data[5] == MSG_HELLO {
        Some(ControlMessage::Hello)
    } else if data[5] == MSG_KEEPALIVE {
        Some(ControlMessage::KeepAlive)
    } else if data[5] == MSG_STATUS {
        Some(ControlMessage::Status)
    } else if data[5] == MSG_STATUS_REQUEST {
        Some(ControlMessage::StatusRequest)
    } else if data[5] == MSG_TIME_SYNC_REQUEST {
        if data.len() < 14 {
            None
        } else {
            Some(ControlMessage::TimeSyncRequest { client_send_ms: u64_from_be(data.subrange(6, 14)) })
        }
    } else if data[5] == MSG_MEDIA_CONTROL {
        if data.len() < 15 {
            None
        } else {
            match MediaCommand::from_wire_code(data[6]) {
                Some(command) => Some(
                    ControlMessage::MediaControl {
                        command,
                        argument: u64_from_be(data.subrange(7, 15)) as i64,
                    },
                ),
                None => None,
            }
        }
    } else {
        None
    }
}

pub fn parse_control_packet(data: &[u8]) -> (r: Option<ControlMessage>)
    ensures
        r == control_packet_meaning(data@),
{
    if data.len() < 6 {
        return None;
    }
    let magic_ok = data[0] == MAGIC[0] && data[1] == MAGIC[1] && data[2] == MAGIC[2] && data[3]
        == MAGIC[3];
    assert(magic_ok <==> data@.subrange(0, 4) == magic_bytes()) by {
        if magic_ok {
            assert(data@.subrange(0, 4) =~= magic_bytes());
        }
        if data@.subrange(0, 4) == magic_bytes() {
            assert(data@.subrange(0, 4)[0] == data@[0]);
            assert(data@.subrange(0, 4)[1] == data@[1]);
            assert(data@.subrange(0, 4)[2] == data@[2]);
            assert(data@.subrange(0, 4)[3] == data@[3]);
        }
    }
    if !magic_ok {
        return None;
    }
    if data[4] != VERSION {
        return None;
    }
    let kind = data[5];
    if kind == MSG_HELLO {
        Some(ControlMessage::Hello)
    } else if kind == MSG_KEEPALIVE {
        Some(ControlMessage::KeepAlive)
    } else if kind == MSG_STATUS {
        Some(ControlMessage::Status)
    } else if kind == MSG_STATUS_REQUEST {
        Some(ControlMessage::StatusRequest)
    } else if kind == MSG_TIME_SYNC_REQUEST {
        if data.len() < 14 {
            return None;
        }
        Some(ControlMessage::TimeSyncRequest { client_send_ms: read_u64_be(data, 6) })
    } else if kind == MSG_MEDIA_CONTROL {
        if data.len() < 15 {
            return None;
        }
        let command = match MediaCommand::from_code(data[6]) {
            Some(command) => command,
            None => return None,
        };
        let argument = read_u64_be(data, 7) as i64;
        Some(ControlMessage::MediaControl { command, argument })
    } else {
        None
    }
}

/// The bytes of a media-control packet.
pub open spec fn media_control_packet(command: MediaCommand, argument: i64) -> Seq<u8> {
    header_bytes(MSG_MEDIA_CONTROL) + seq![command.wire_code()] + be_i64(argument)
}

/// The length, capped at 65535, under which a text field is sent.
pub open spec fn capped_len(bytes: Seq<u8>) -> nat {
    if bytes.len() <= 0xffff {
        bytes.len()
    } else {
        0xffff
    }
}

/// A text field as sent: its UTF-8 bytes, cut to at most 65535 bytes.
pub open spec fn text_field(text: Seq<char>) -> Seq<u8> {
    encode_utf8(text).take(capped_len(encode_utf8(text)) as int)
}

/// `u64::MAX` stands for an absent position or duration.
pub open spec fn time_or_max(t: Option<u64>) -> u64 {
    match t {
        Some(t) => t,
        None => u64::MAX,
    }
}

/// The bytes of a now-playing packet. Artist and title are sent as UTF-8,
/// each cut to at most 65535 bytes; an absent position or duration is sent
/// as `u64::MAX`.
pub open spec fn now_playing_packet(sequence: u64, metadata: NowPlayingView) -> Seq<u8> {
    let artist = text_field(metadata.artist);
    let title = text_field(metadata.title);
    header_bytes(MSG_NOW_PLAYING) + be_u64(sequence) + seq![metadata.playback_status.wire_code()]
        + be_u16(artist.len() as u16) + be_u16(title.len() as u16) + artist + title + be_u64(
        time_or_max(metadata.position_ms),
    ) + be_u64(time_or_max(metadata.duration_ms))
}

/// The bytes of a configuration packet.
pub open spec fn config_packet(config: StreamConfig) -> Seq<u8> {
    header_bytes(MSG_CONFIG) + be_u16(config.udp_port) + be_u32(config.sample_rate) + seq![
        config.channels,
    ] + be_u16(config.frame_size as u16)
}

/// The bytes of an audio stream packet: version, sequence number, capture
/// timestamp, payload length (kept to its low 16 bits) and payload. Stream
/// packets carry no magic.
pub open spec fn stream_packet(seq: u32, timestamp_ms: u64, payload: Seq<u8>) -> Seq<u8> {
    seq![VERSION] + be_u32(seq) + be_u64(timestamp_ms) + be_u16(payload.len() as u16) + payload
}

/// The bytes of a status packet: the streaming flag, the session id, and
/// the server's name as a UTF-8 text field (cut to at most 65535 bytes)
/// behind its 16-bit length.
pub open spec fn status_packet(streaming: bool, session_id: u64, server_name: Seq<char>) -> Seq<u8> {
    let name = text_field(server_name);
    header_bytes(MSG_STATUS) + seq![if streaming { 1u8 } else { 0u8 }] + be_u64(session_id)
        + be_u16(name.len() as u16) + name
}

/// The bytes of a time-synchronisation response.
pub open spec fn time_sync_response_packet(
    client_send_ms: u64,
    server_receive_ms: u64,
    server_send_ms: u64,
) -> Seq<u8> {
    header_bytes(MSG_TIME_SYNC_RESPONSE) + be_u64(client_send_ms) + be_u64(server_receive_ms)
        + be_u64(server_send_ms)
}

fn put_header(buf: &mut bytes::BytesMut, msg: u8)
    requires
        bytes_mut_view(*old(buf)).len() == 0,
    ensures
        bytes_mut_view(*final(buf)) == header_bytes(msg),
{
    bytes_mut_put_slice(buf, &MAGIC);
    bytes_mut_put_u8(buf, VERSION);
    bytes_mut_put_u8(buf, msg);
    assert(bytes_mut_view(*buf) =~= header_bytes(msg));
}

pub fn build_media_control_packet(command: MediaCommand, argument: i64) -> (packet: Bytes)
    ensures
        bytes_view(packet) == media_control_packet(command, argument),
{
    let mut buf = bytes_mut_with_capacity(4 + 1 + 1 + 1 + 8);
    put_header(&mut buf, MSG_MEDIA_CONTROL);
    bytes_mut_put_u8(&mut buf, command.code());
    bytes_mut_put_i64(&mut buf, argument);
    assert(bytes_mut_view(buf) =~= media_control_packet(command, argument));
    bytes_mut_freeze(buf)
}

pub fn build_now_playing_packet(sequence: u64, metadata: &NowPlayingMetadata) -> (packet: Bytes)
    ensures
        bytes_view(packet) == now_playing_packet(sequence, metadata@),
{
    let artist = metadata.artist.as_str().as_bytes();
    let title = metadata.title.as_str().as_bytes();
    let artist_len = if artist.len() <= 0xffff { artist.len() } else { 0xffff };
    let title_len = if title.len() <= 0xffff { title.len() } else { 0xffff };
    let artist_field = &artist[0..artist_len];
    let title_field = &title[0..title_len];
    assert(artist_field@ =~= text_field(metadata@.artist));
    assert(title_field@ =~= text_field(metadata@.title));
    let mut buf = bytes_mut_with_capacity(4 + 1 + 1 + 8 + 1 + 2 + 2 + artist_len + title_len + 16);
    put_header(&mut buf, MSG_NOW_PLAYING);
    bytes_mut_put_u64(&mut buf, sequence);
    bytes_mut_put_u8(&mut buf, metadata.playback_status.code());
    bytes_mut_put_u16(&mut buf, artist_len as u16);
    bytes_mut_put_u16(&mut buf, title_len as u16);
    let ghost fixed = bytes_mut_view(buf);
    bytes_mut_put_slice(&mut buf, artist_field);
    bytes_mut_put_slice(&mut buf, title_field);
    let position = match metadata.position_ms {
        Some(p) => p,
        None => u64::MAX,
    };
    let duration = match metadata.duration_ms {
        Some(d) => d,
        None => u64::MAX,
    };
    bytes_mut_put_u64(&mut buf, position);
    bytes_mut_put_u64(&mut buf, duration);
    assert(bytes_mut_view(buf) == fixed + artist_field@ + title_field@ + be_u64(position) + be_u64(
        duration,
    ));
    bytes_mut_freeze(buf)
}

pub fn build_config_packet(config: StreamConfig) -> (packet: Bytes)
    requires
        config.frame_size <= u16::MAX,
    ensures
        bytes_view(packet) == config_packet(config),
{
    let mut buf = bytes_mut_with_capacity(4 + 1 + 1 + 2 + 4 + 1 + 2);
    put_header(&mut buf, MSG_CONFIG);
    bytes_mut_put_u16(&mut buf, config.udp_port);
    bytes_mut_put_u32(&mut buf, config.sample_rate);
    bytes_mut_put_u8(&mut buf, config.channels);
    bytes_mut_put_u16(&mut buf, config.frame_size as u16);
    assert(bytes_mut_view(buf) =~= config_packet(config));
    bytes_mut_freeze(buf)
}

pub fn build_stream_packet(seq: u32, timestamp_ms: u64, payload: &[u8]) -> (packet: Bytes)
    requires
        payload@.len() + 15 <= isize::MAX,
    ensures
        bytes_view(packet) == stream_packet(seq, timestamp_ms, payload@),
{
    let mut buf = bytes_mut_with_capacity(1 + 4 + 8 + 2 + payload.len());
    bytes_mut_put_u8(&mut buf, VERSION);
    bytes_mut_put_u32(&mut buf, seq);
    bytes_mut_put_u64(&mut buf, timestamp_ms);
    bytes_mut_put_u16(&mut buf, payload.len() as u16);
    bytes_mut_put_slice(&mut buf, payload);
    assert(bytes_mut_view(buf) =~= stream_packet(seq, timestamp_ms, payload@));
    bytes_mut_freeze(buf)
}

pub fn build_status_packet(streaming: bool, session_id: u64, server_name: &str) -> (packet: Bytes)
    ensures
        bytes_view(packet) == status_packet(streaming, session_id, server_name@),
{
    let name = server_name.as_bytes();
    let name_len = if name.len() <= 0xffff { name.len() } else { 0xffff };
    let name_field = &name[0..name_len];
    assert(name_field@ =~= text_field(server_name@));
    let mut buf = bytes_mut_with_capacity(4 + 1 + 1 + 1 + 8 + 2 + name_len);
    put_header(&mut buf, MSG_STATUS);
    bytes_mut_put_u8(&mut buf, if streaming { 1 } else { 0 });
    bytes_mut_put_u64(&mut buf, session_id);
    bytes_mut_put_u16(&mut buf, name_len as u16);
    bytes_mut_put_slice(&mut buf, name_field);
    assert(bytes_mut_view(buf) =~= status_packet(streaming, session_id, server_name@));
    bytes_mut_freeze(buf)
}

pub fn build_time_sync_response_packet(
    client_send_ms: u64,
    server_receive_ms: u64,
    server_send_ms: u64,
) -> (packet: Bytes)
    ensures
        bytes_view(packet) == time_sync_response_packet(
            client_send_ms,
            server_receive_ms,
            server_send_ms,
        ),
{
    let mut buf = bytes_mut_with_capacity(4 + 1 + 1 + 8 + 8 + 8);
    put_header(&mut buf, MSG_TIME_SYNC_RESPONSE);
    bytes_mut_put_u64(&mut buf, client_send_ms);
    bytes_mut_put_u64(&mut buf, server_receive_ms);
    bytes_mut_put_u64(&mut buf, server_send_ms);
    assert(bytes_mut_view(buf) =~= time_sync_response_packet(
        client_send_ms,
        server_receive_ms,
        server_send_ms,
    ));
    bytes_mut_freeze(buf)
}

/// A media-control packet built for a command and argument parses back to
/// exactly that command and argument.
pub proof fn lemma_media_control_roundtrip(command: MediaCommand, argument: i64)
    ensures
        control_packet_meaning(media_control_packet(command, argument)) == Some(
            ControlMessage::MediaControl { command, argument },
        ),
{
    let p = media_control_packet(command, argument);
    assert(p.subrange(0, 4) =~= magic_bytes());
    assert(p.subrange(7, 15) =~= be_i64(argument));
    lemma_i64_roundtrip(argument);
}

/// A status packet is read by the control parser as a status message.
pub proof fn lemma_status_packet_is_status(streaming: bool, session_id: u64, server_name: Seq<char>)
    ensures
        control_packet_meaning(status_packet(streaming, session_id, server_name)) == Some(
            ControlMessage::Status,
        ),
{
    assert(status_packet(streaming, session_id, server_name).subrange(0, 4) =~= magic_bytes());
}

/// A bare header of kind hello, keepalive, status or status request parses
/// to that message.
pub proof fn lemma_bare_header_meaning(msg: u8)
    ensures
        msg == MSG_HELLO ==> control_packet_meaning(header_bytes(msg)) == Some(ControlMessage::Hello),
        msg == MSG_KEEPALIVE ==> control_packet_meaning(header_bytes(msg)) == Some(
            ControlMessage::KeepAlive,
        ),
        msg == MSG_STATUS ==> control_packet_meaning(header_bytes(msg)) == Some(ControlMessage::Status),
        msg == MSG_STATUS_REQUEST ==> control_packet_meaning(header_bytes(msg)) == Some(
            ControlMessage::StatusRequest,
        ),
{
    assert(header_bytes(msg).subrange(0, 4) =~= magic_bytes());
}

/// A time-synchronisation request carrying `client_send_ms` parses to that
/// timestamp.
pub proof fn lemma_time_sync_request_meaning(client_send_ms: u64)
    ensures
        control_packet_meaning(header_bytes(MSG_TIME_SYNC_REQUEST) + be_u64(client_send_ms)) == Some(
            ControlMessage::TimeSyncRequest { client_send_ms },
        ),
{
    let p = header_bytes(MSG_TIME_SYNC_REQUEST) + be_u64(client_send_ms);
    assert(p.subrange(0, 4) =~= magic_bytes());
    assert(p.subrange(6, 14) =~= be_u64(client_send_ms));
    lemma_u64_roundtrip(client_send_ms);
}

} // verus!
