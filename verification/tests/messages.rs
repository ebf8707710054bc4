use minnty_sound_server::control::messages::{
    build_config_packet, build_media_control_packet, build_now_playing_packet,
    build_status_packet, build_stream_packet, build_time_sync_response_packet,
    parse_control_packet, ControlMessage, MediaCommand, NowPlayingMetadata, PlaybackStatus,
    StreamConfig, MAGIC, MSG_CONFIG, MSG_HELLO, MSG_KEEPALIVE, MSG_MEDIA_CONTROL,
    MSG_NOW_PLAYING, MSG_STATUS, MSG_STATUS_REQUEST, MSG_TIME_SYNC_REQUEST,
    MSG_TIME_SYNC_RESPONSE, VERSION,
};

#[test]
fn parse_control_packets() {
    let mut hello = Vec::new();
    hello.extend_from_slice(&MAGIC);
    hello.push(VERSION);
    hello.push(MSG_HELLO);
    assert!(matches!(
        parse_control_packet(&hello),
        Some(ControlMessage::Hello)
    ));

    let mut keepalive = Vec::new();
    keepalive.extend_from_slice(&MAGIC);
    keepalive.push(VERSION);
    keepalive.push(MSG_KEEPALIVE);
    assert!(matches!(
        parse_control_packet(&keepalive),
        Some(ControlMessage::KeepAlive)
    ));

    let mut status = Vec::new();
    status.extend_from_slice(&MAGIC);
    status.push(VERSION);
    status.push(MSG_STATUS);
    assert!(matches!(
        parse_control_packet(&status),
        Some(ControlMessage::Status)
    ));

    let mut status_request = Vec::new();
    status_request.extend_from_slice(&MAGIC);
    status_request.push(VERSION);
    status_request.push(MSG_STATUS_REQUEST);
    assert!(matches!(
        parse_control_packet(&status_request),
        Some(ControlMessage::StatusRequest)
    ));

    let mut time_sync_request = Vec::new();
    time_sync_request.extend_from_slice(&MAGIC);
    time_sync_request.push(VERSION);
    time_sync_request.push(MSG_TIME_SYNC_REQUEST);
    time_sync_request.extend_from_slice(&0x0102_0304_0506_0708u64.to_be_bytes());
    assert!(matches!(
        parse_control_packet(&time_sync_request),
        Some(ControlMessage::TimeSyncRequest { client_send_ms }) if client_send_ms == 0x0102_0304_0506_0708
    ));

    let media_control = build_media_control_packet(MediaCommand::SeekRelativeMs, -30_000);
    assert!(matches!(
        parse_control_packet(&media_control),
        Some(ControlMessage::MediaControl { command: MediaCommand::SeekRelativeMs, argument: -30_000 })
    ));

    let absolute_seek = build_media_control_packet(MediaCommand::SeekAbsoluteMs, 60_000);
    assert!(matches!(
        parse_control_packet(&absolute_seek),
        Some(ControlMessage::MediaControl { command: MediaCommand::SeekAbsoluteMs, argument: 60_000 })
    ));

    let stop = build_media_control_packet(MediaCommand::Stop, 0);
    assert!(matches!(
        parse_control_packet(&stop),
        Some(ControlMessage::MediaControl { command: MediaCommand::Stop, argument: 0 })
    ));

    let mut invalid = Vec::new();
    invalid.extend_from_slice(b"NOPE");
    invalid.push(VERSION);
    invalid.push(MSG_HELLO);
    assert!(parse_control_packet(&invalid).is_none());
}

#[test]
fn build_config_packet_contains_fields() {
    let packet = build_config_packet(StreamConfig::default());
    let bytes = packet.as_ref();
    assert_eq!(&bytes[0..4], MAGIC.as_slice());
    assert_eq!(bytes[4], VERSION);
    assert_eq!(bytes[5], MSG_CONFIG);
}

#[test]
fn build_stream_packet_has_payload_length() {
    let payload = [1u8, 2, 3, 4, 5];
    let packet = build_stream_packet(42, 1000, &payload);
    let bytes = packet.as_ref();
    assert_eq!(bytes[0], VERSION);
    let len = u16::from_be_bytes([bytes[13], bytes[14]]);
    assert_eq!(len as usize, payload.len());
    let seq = u32::from_be_bytes([bytes[1], bytes[2], bytes[3], bytes[4]]);
    assert_eq!(seq, 42);
    let ts = u64::from_be_bytes([
        bytes[5], bytes[6], bytes[7], bytes[8], bytes[9], bytes[10], bytes[11], bytes[12],
    ]);
    assert_eq!(ts, 1000);
}

#[test]
fn build_status_packet_contains_state_and_session() {
    let packet = build_status_packet(true, 0x1122_3344_5566_7788, "minnty-192.168.1.5");
    let bytes = packet.as_ref();
    assert_eq!(&bytes[0..4], MAGIC.as_slice());
    assert_eq!(bytes[4], VERSION);
    assert_eq!(bytes[5], MSG_STATUS);
    assert_eq!(bytes[6], 1);
    let session_id = u64::from_be_bytes([
        bytes[7], bytes[8], bytes[9], bytes[10], bytes[11], bytes[12], bytes[13], bytes[14],
    ]);
    assert_eq!(session_id, 0x1122_3344_5566_7788);
    assert_eq!(u16::from_be_bytes([bytes[15], bytes[16]]), 18);
    assert_eq!(&bytes[17..], b"minnty-192.168.1.5");
}

#[test]
fn build_time_sync_response_contains_timestamps() {
    let packet = build_time_sync_response_packet(10, 20, 30);
    let bytes = packet.as_ref();
    assert_eq!(&bytes[0..4], MAGIC.as_slice());
    assert_eq!(bytes[4], VERSION);
    assert_eq!(bytes[5], MSG_TIME_SYNC_RESPONSE);
    assert_eq!(u64::from_be_bytes(bytes[6..14].try_into().unwrap()), 10);
    assert_eq!(u64::from_be_bytes(bytes[14..22].try_into().unwrap()), 20);
    assert_eq!(u64::from_be_bytes(bytes[22..30].try_into().unwrap()), 30);
}

#[test]
fn build_media_control_packet_contains_command_and_argument() {
    let packet = build_media_control_packet(MediaCommand::VolumeDown, -1);
    let bytes = packet.as_ref();
    assert_eq!(&bytes[0..4], MAGIC.as_slice());
    assert_eq!(bytes[4], VERSION);
    assert_eq!(bytes[5], MSG_MEDIA_CONTROL);
    assert_eq!(bytes[6], MediaCommand::VolumeDown.code());
    assert_eq!(i64::from_be_bytes(bytes[7..15].try_into().unwrap()), -1);
}

#[test]
fn build_now_playing_packet_contains_metadata() {
    let packet = build_now_playing_packet(
        42,
        &NowPlayingMetadata {
            artist: "Artist".to_string(),
            title: "Title".to_string(),
            playback_status: PlaybackStatus::Playing,
            position_ms: Some(12_345),
            duration_ms: Some(67_890),
            track_id: Some("/track/1".to_string()),
        },
    );
    let bytes = packet.as_ref();
    assert_eq!(&bytes[0..4], MAGIC.as_slice());
    assert_eq!(bytes[4], VERSION);
    assert_eq!(bytes[5], MSG_NOW_PLAYING);
    assert_eq!(u64::from_be_bytes(bytes[6..14].try_into().unwrap()), 42);
    assert_eq!(bytes[14], PlaybackStatus::Playing.code());
    assert_eq!(u16::from_be_bytes(bytes[15..17].try_into().unwrap()), 6);
    assert_eq!(u16::from_be_bytes(bytes[17..19].try_into().unwrap()), 5);
    assert_eq!(&bytes[19..25], b"Artist");
    assert_eq!(&bytes[25..30], b"Title");
    assert_eq!(u64::from_be_bytes(bytes[30..38].try_into().unwrap()), 12_345);
    assert_eq!(u64::from_be_bytes(bytes[38..46].try_into().unwrap()), 67_890);
}

#[test]
fn media_command_codes_roundtrip() {
    let all = [
        MediaCommand::PlayPause,
        MediaCommand::Play,
        MediaCommand::Pause,
        MediaCommand::Next,
        MediaCommand::Previous,
        MediaCommand::SeekRelativeMs,
        MediaCommand::VolumeUp,
        MediaCommand::VolumeDown,
        MediaCommand::SeekAbsoluteMs,
        MediaCommand::Stop,
    ];
    for (i, command) in all.iter().enumerate() {
        assert_eq!(command.code() as usize, i + 1);
        assert_eq!(MediaCommand::from_code(command.code()), Some(*command));
    }
    assert_eq!(MediaCommand::from_code(0), None);
    assert_eq!(MediaCommand::from_code(11), None);
    assert!(MediaCommand::VolumeUp.is_volume());
    assert!(MediaCommand::VolumeDown.is_volume());
    assert!(!MediaCommand::Play.is_volume());
}

#[test]
fn playback_status_codes() {
    assert_eq!(PlaybackStatus::Unknown.code(), 0);
    assert_eq!(PlaybackStatus::Playing.code(), 1);
    assert_eq!(PlaybackStatus::Paused.code(), 2);
    assert_eq!(PlaybackStatus::Stopped.code(), 3);
}

#[test]
fn config_packet_exact_bytes() {
    let packet = build_config_packet(StreamConfig::default());
    assert_eq!(
        packet.as_ref(),
        &[77, 78, 84, 89, 1, 2, 0x9c, 0xae, 0, 0, 0xbb, 0x80, 2, 0x01, 0xe0][..]
    );
}

#[test]
fn media_control_packet_exact_bytes() {
    let packet = build_media_control_packet(MediaCommand::SeekRelativeMs, -30_000);
    assert_eq!(
        packet.as_ref(),
        &[77, 78, 84, 89, 1, 8, 6, 0xff, 0xff, 0xff, 0xff, 0xff, 0xff, 0x8a, 0xd0][..]
    );
}

#[test]
fn now_playing_packet_absent_times_are_max() {
    let packet = build_now_playing_packet(
        1,
        &NowPlayingMetadata {
            artist: String::new(),
            title: String::new(),
            playback_status: PlaybackStatus::Unknown,
            position_ms: None,
            duration_ms: None,
            track_id: None,
        },
    );
    let bytes = packet.as_ref();
    assert_eq!(bytes.len(), 19 + 16);
    assert_eq!(bytes[14], 0);
    assert_eq!(u64::from_be_bytes(bytes[19..27].try_into().unwrap()), u64::MAX);
    assert_eq!(u64::from_be_bytes(bytes[27..35].try_into().unwrap()), u64::MAX);
}

#[test]
fn now_playing_packet_caps_long_text() {
    let long = "x".repeat(70_000);
    let packet = build_now_playing_packet(
        7,
        &NowPlayingMetadata {
            artist: long,
            title: "T".to_string(),
            playback_status: PlaybackStatus::Paused,
            position_ms: Some(1),
            duration_ms: None,
            track_id: None,
        },
    );
    let bytes = packet.as_ref();
    assert_eq!(u16::from_be_bytes(bytes[15..17].try_into().unwrap()), 0xffff);
    assert_eq!(u16::from_be_bytes(bytes[17..19].try_into().unwrap()), 1);
    assert_eq!(bytes.len(), 19 + 0xffff + 1 + 16);
    assert_eq!(bytes[19 + 0xffff], b'T');
}

#[test]
fn stream_packet_length_field_keeps_low_bits() {
    let payload = vec![9u8; 70_000];
    let packet = build_stream_packet(1, 2, &payload);
    let bytes = packet.as_ref();
    let len = u16::from_be_bytes([bytes[13], bytes[14]]);
    assert_eq!(len as usize, 70_000 % 65_536);
    assert_eq!(bytes.len(), 15 + 70_000);
}

#[test]
fn parse_rejects_bad_version_and_truncation() {
    let mut wrong_version = MAGIC.to_vec();
    wrong_version.push(2);
    wrong_version.push(MSG_HELLO);
    assert!(parse_control_packet(&wrong_version).is_none());

    let mut short_time_sync = MAGIC.to_vec();
    short_time_sync.push(VERSION);
    short_time_sync.push(MSG_TIME_SYNC_REQUEST);
    short_time_sync.extend_from_slice(&[1, 2, 3]);
    assert!(parse_control_packet(&short_time_sync).is_none());

    let mut unknown_command = MAGIC.to_vec();
    unknown_command.push(VERSION);
    unknown_command.push(MSG_MEDIA_CONTROL);
    unknown_command.push(42);
    unknown_command.extend_from_slice(&0i64.to_be_bytes());
    assert!(parse_control_packet(&unknown_command).is_none());

    let mut unknown_kind = MAGIC.to_vec();
    unknown_kind.push(VERSION);
    unknown_kind.push(MSG_CONFIG);
    assert!(parse_control_packet(&unknown_kind).is_none());

    assert!(parse_control_packet(&MAGIC).is_none());
}
