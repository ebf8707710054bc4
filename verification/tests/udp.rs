use minnty_sound_server::control::messages::{
    build_media_control_packet, MediaCommand, NowPlayingMetadata, PlaybackStatus, StreamConfig,
    MAGIC, MSG_CONFIG, MSG_HELLO, MSG_KEEPALIVE, MSG_MEDIA_CONTROL, MSG_NOW_PLAYING, MSG_STATUS,
    MSG_STATUS_REQUEST, MSG_TIME_SYNC_REQUEST, VERSION,
};
use minnty_sound_server::server_state::ServerState;
use minnty_sound_server::transport::registry::{ClientRegistry, PeerAddr};
use minnty_sound_server::transport::udp::{ListenerAction, UdpServer};

fn peer(port: u16) -> PeerAddr {
    PeerAddr { ip: 0x7f00_0001, is_v6: false, port, flowinfo: 0, scope_id: 0 }
}

fn bare(msg: u8) -> Vec<u8> {
    let mut p = MAGIC.to_vec();
    p.push(VERSION);
    p.push(msg);
    p
}

fn reply_bytes(action: &ListenerAction) -> Vec<u8> {
    match action {
        ListenerAction::Reply(p) => p.to_vec(),
        _ => panic!("expected a reply"),
    }
}

#[test]
fn listener_hello_registers_and_replies_with_config() {
    let mut server = UdpServer::new(StreamConfig::default(), 123, 0, "minnty-test".to_string());
    let state = ServerState::new();
    let actions = server.handle_datagram(&bare(MSG_HELLO), peer(5000), 10, 1000, &state);
    assert_eq!(actions.len(), 1);
    let reply = reply_bytes(&actions[0]);
    assert_eq!(&reply[0..4], MAGIC.as_slice());
    assert_eq!(reply[5], MSG_CONFIG);
    let listed = server.active_client_addresses(20, None);
    assert_eq!(listed, vec![peer(5000)]);
}

#[test]
fn listener_status_request_reports_streaming_and_session() {
    let mut server = UdpServer::new(StreamConfig::default(), 0x1122_3344_5566_7788, 0, "minnty-test".to_string());
    server.set_streaming(true);
    let state = ServerState::new();
    let actions = server.handle_datagram(&bare(MSG_STATUS_REQUEST), peer(1), 0, 0, &state);
    assert_eq!(actions.len(), 1);
    let reply = reply_bytes(&actions[0]);
    assert_eq!(reply[5], MSG_STATUS);
    assert_eq!(reply[6], 1);
    assert_eq!(u64::from_be_bytes(reply[7..15].try_into().unwrap()), 0x1122_3344_5566_7788);
    // Fixed prefix (15 bytes) plus the trailing name field (len u16 + name bytes).
    assert!(reply.len() >= 17);
    let name_len = u16::from_be_bytes([reply[15], reply[16]]) as usize;
    assert_eq!(reply.len(), 17 + name_len);
    assert_eq!(&reply[17..], b"minnty-test");
}

#[test]
fn listener_ignores_keepalive_from_unknown_sender() {
    let mut server = UdpServer::new(StreamConfig::default(), 456, 0, "minnty-test".to_string());
    let state = ServerState::new();
    let actions = server.handle_datagram(&bare(MSG_KEEPALIVE), peer(9), 5, 5, &state);
    assert!(actions.is_empty());
    assert!(server.active_client_addresses(5, None).is_empty());
}

#[test]
fn listener_time_sync_echoes_client_time() {
    let mut server = UdpServer::new(StreamConfig::default(), 789, 0, "minnty-test".to_string());
    let state = ServerState::new();
    let mut request = bare(MSG_TIME_SYNC_REQUEST);
    request.extend_from_slice(&0x0102_0304_0506_0708u64.to_be_bytes());
    let actions = server.handle_datagram(&request, peer(2), 0, 777, &state);
    assert_eq!(actions.len(), 1);
    match &actions[0] {
        ListenerAction::ReplyTimeSync { client_send_ms, server_receive_ms } => {
            assert_eq!(*client_send_ms, 0x0102_0304_0506_0708);
            assert_eq!(*server_receive_ms, 777);
        }
        _ => panic!("expected a time sync reply"),
    }
}

#[test]
fn listener_dispatches_transport_commands() {
    let mut server = UdpServer::new(StreamConfig::default(), 789, 0, "minnty-test".to_string());
    let state = ServerState::new();
    let packet = build_media_control_packet(MediaCommand::SeekRelativeMs, -30_000);
    let actions = server.handle_datagram(&packet, peer(3), 0, 0, &state);
    assert_eq!(actions.len(), 1);
    match &actions[0] {
        ListenerAction::Dispatch { command, argument } => {
            assert_eq!(*command, MediaCommand::SeekRelativeMs);
            assert_eq!(*argument, -30_000);
        }
        _ => panic!("expected a dispatch"),
    }
}

#[test]
fn listener_forwards_volume_to_other_clients_only() {
    let mut server = UdpServer::new(StreamConfig::default(), 789, 0, "minnty-test".to_string());
    let state = ServerState::new();
    server.handle_datagram(&bare(MSG_HELLO), peer(1), 0, 0, &state);
    server.handle_datagram(&bare(MSG_HELLO), peer(2), 0, 0, &state);
    let packet = build_media_control_packet(MediaCommand::VolumeUp, 0);
    let actions = server.handle_datagram(&packet, peer(1), 100, 100, &state);
    assert_eq!(actions.len(), 1);
    match &actions[0] {
        ListenerAction::Forward { packet, recipients } => {
            assert_eq!(recipients, &vec![peer(2)]);
            assert_eq!(packet.len(), 15);
            assert_eq!(packet[5], MSG_MEDIA_CONTROL);
            assert_eq!(packet[6], MediaCommand::VolumeUp.code());
        }
        _ => panic!("expected a forward"),
    }
}

#[test]
fn listener_adjusts_server_volume_when_enabled() {
    let mut server = UdpServer::new(StreamConfig::default(), 789, 0, "minnty-test".to_string());
    let mut state = ServerState::new();
    state.set_change_server_volume_from_clients(true);
    state.set_current_sink(Some("alsa_output.test".to_string()));
    let packet = build_media_control_packet(MediaCommand::VolumeDown, 0);
    let actions = server.handle_datagram(&packet, peer(1), 0, 0, &state);
    assert_eq!(actions.len(), 2);
    match &actions[1] {
        ListenerAction::AdjustServerVolume { command, sink } => {
            assert_eq!(*command, MediaCommand::VolumeDown);
            assert_eq!(sink.as_deref(), Some("alsa_output.test"));
        }
        _ => panic!("expected a volume adjustment"),
    }
}

#[test]
fn listener_hello_receives_latest_calibration_now_playing() {
    let mut server = UdpServer::new(StreamConfig::default(), 789, 0, "minnty-test".to_string());
    server.publish_calibration_now_playing();
    let state = ServerState::new();
    let actions = server.handle_datagram(&bare(MSG_HELLO), peer(4), 0, 0, &state);
    assert_eq!(actions.len(), 2);
    let buf = reply_bytes(&actions[1]);
    assert_eq!(&buf[0..4], MAGIC.as_slice());
    assert_eq!(buf[5], MSG_NOW_PLAYING);
    assert_eq!(buf[14], PlaybackStatus::Playing.code());
    let artist_len = u16::from_be_bytes([buf[15], buf[16]]) as usize;
    let title_len = u16::from_be_bytes([buf[17], buf[18]]) as usize;
    assert_eq!(artist_len, 0);
    assert_eq!(title_len, "Calibration stream".len());
    assert_eq!(std::str::from_utf8(&buf[19..19 + title_len]).unwrap(), "Calibration stream");
    assert_eq!(buf.len(), 19 + title_len + 16);
}

#[test]
fn clients_expire_after_timeout() {
    let mut registry = ClientRegistry::new();
    registry.register(peer(1), 1_000);
    registry.register(peer(2), 5_000);
    assert_eq!(registry.len(), 2);
    let listed = registry.prune_and_list(11_000, None);
    assert_eq!(listed, vec![peer(1), peer(2)]);
    let listed = registry.prune_and_list(11_001, None);
    assert_eq!(listed, vec![peer(2)]);
    registry.refresh(peer(2), 20_000);
    registry.refresh(peer(3), 20_000);
    assert_eq!(registry.prune_and_list(29_000, Some(peer(2))), Vec::<PeerAddr>::new());
    assert_eq!(registry.len(), 1);
}

#[test]
fn metadata_poll_skips_repeats_unless_playing() {
    let mut server = UdpServer::new(StreamConfig::default(), 1, 0, "minnty-test".to_string());
    // Nothing playing, as at start: nothing to announce.
    assert!(server.on_metadata_poll(None).is_none());
    let paused = NowPlayingMetadata {
        artist: "A".to_string(),
        title: "T".to_string(),
        playback_status: PlaybackStatus::Paused,
        position_ms: Some(1),
        duration_ms: Some(2),
        track_id: None,
    };
    let first = server.on_metadata_poll(Some(paused.clone())).unwrap();
    assert_eq!(u64::from_be_bytes(first[6..14].try_into().unwrap()), 1);
    assert!(server.on_metadata_poll(Some(paused.clone())).is_none());
    let mut playing = paused.clone();
    playing.playback_status = PlaybackStatus::Playing;
    assert!(server.on_metadata_poll(Some(playing.clone())).is_some());
    let again = server.on_metadata_poll(Some(playing)).unwrap();
    assert_eq!(u64::from_be_bytes(again[6..14].try_into().unwrap()), 3);
    // The player disappears: empty metadata is announced once.
    let gone = server.on_metadata_poll(None).unwrap();
    assert_eq!(gone[14], PlaybackStatus::Unknown.code());
    assert_eq!(gone.len(), 19 + 16);
    assert!(server.on_metadata_poll(None).is_none());
}

#[test]
fn send_statistics_summarize_every_two_seconds() {
    let mut server = UdpServer::new(StreamConfig::default(), 1, 1_000, "minnty-test".to_string());
    assert!(server.record_frame_sent(1_500, 1, 3).is_none());
    assert!(server.record_frame_sent(2_999, 0, 3).is_none());
    let summary = server.record_frame_sent(3_000, 2, 4).unwrap();
    assert_eq!(summary.frames_sent, 3);
    assert_eq!(summary.send_errors, 3);
    assert_eq!(summary.active_clients, 4);
    assert_eq!(server.frames_sent_window(), 0);
    assert_eq!(server.send_errors_window(), 0);
}
