use minnty_sound_server::media_control::linux::{adjust_volume as linux_adjust_volume, mpris_step, MprisStep};
use minnty_sound_server::media_control::windows::{session_action, SessionAction, TransportRequest};
use minnty_sound_server::media_control::linux::select_player;
use minnty_sound_server::control::messages::{MediaCommand, PlaybackStatus};
use minnty_sound_server::media_control::{
    duration_ms, estimated_position_ms, forwards_to_player, mpris_call, parse_playback_status,
    refarg_microseconds_to_ms, seek_target_100ns, session_call, should_send_play, volume_step,
    volume_target, windows_time_from_unix_100ns, MprisCall, SessionCall,
    WINDOWS_TO_UNIX_EPOCH_100NS,
};

#[test]
fn refarg_microseconds_to_ms_accepts_signed_and_unsigned_values() {
    // An i64 argument reads as signed only; a u64 argument as unsigned only.
    assert_eq!(refarg_microseconds_to_ms(Some(123_456i64), None), Some(123));
    assert_eq!(refarg_microseconds_to_ms(None, Some(407_973_000u64)), Some(407_973));
    assert_eq!(refarg_microseconds_to_ms(Some(-1i64), None), None);
}

#[test]
fn parse_playback_status_maps_mpris_strings() {
    assert_eq!(
        parse_playback_status(Some("Playing")),
        PlaybackStatus::Playing
    );
    assert_eq!(
        parse_playback_status(Some("Paused")),
        PlaybackStatus::Paused
    );
    assert_eq!(
        parse_playback_status(Some("Stopped")),
        PlaybackStatus::Stopped
    );
    assert_eq!(
        parse_playback_status(Some("Other")),
        PlaybackStatus::Unknown
    );
    assert_eq!(parse_playback_status(None), PlaybackStatus::Unknown);
}

#[test]
fn mpris_calls_for_commands() {
    assert_eq!(mpris_call(MediaCommand::PlayPause, 0), Some(MprisCall::PlayPause));
    assert_eq!(mpris_call(MediaCommand::Play, 0), Some(MprisCall::PlayUnlessPlaying));
    assert_eq!(
        mpris_call(MediaCommand::SeekRelativeMs, -30_000),
        Some(MprisCall::Seek { offset_us: -30_000_000 })
    );
    assert_eq!(
        mpris_call(MediaCommand::SeekAbsoluteMs, -5),
        Some(MprisCall::SetPosition { position_us: 0 })
    );
    assert_eq!(
        mpris_call(MediaCommand::SeekAbsoluteMs, 60_000),
        Some(MprisCall::SetPosition { position_us: 60_000_000 })
    );
    assert_eq!(
        mpris_call(MediaCommand::SeekRelativeMs, i64::MAX),
        Some(MprisCall::Seek { offset_us: i64::MAX })
    );
    assert_eq!(mpris_call(MediaCommand::VolumeUp, 0), None);
    assert!(should_send_play(PlaybackStatus::Paused));
    assert!(!should_send_play(PlaybackStatus::Playing));
    assert!(!forwards_to_player(MediaCommand::VolumeDown));
    assert!(forwards_to_player(MediaCommand::Next));
}

#[test]
fn session_calls_for_commands() {
    assert_eq!(session_call(MediaCommand::Next, 0), Some(SessionCall::SkipNext));
    assert_eq!(
        session_call(MediaCommand::SeekAbsoluteMs, 2),
        Some(SessionCall::SeekTo { position_100ns: 20_000 })
    );
    assert_eq!(
        session_call(MediaCommand::SeekRelativeMs, 5),
        Some(SessionCall::SeekRelative { delta_ms: 5 })
    );
    assert_eq!(session_call(MediaCommand::VolumeDown, 0), None);
    assert_eq!(seek_target_100ns(100_000, -30), 0);
    assert_eq!(seek_target_100ns(100_000, 3), 130_000);
    assert_eq!(seek_target_100ns(i64::MAX, i64::MAX), i64::MAX);
}

#[test]
fn windows_time_conversions() {
    assert_eq!(duration_ms(0, 30_000_000), Some(3_000));
    assert_eq!(duration_ms(10, 10), None);
    // Paused: the reported position is used as is.
    assert_eq!(
        estimated_position_ms(50_000, 0, 0, 0, PlaybackStatus::Paused, 1_000_000),
        Some(5)
    );
    // Playing: advanced by the time since the update, capped at the length.
    assert_eq!(
        estimated_position_ms(50_000, 1_000, 0, 10_000_000, PlaybackStatus::Playing, 21_000),
        Some(7)
    );
    assert_eq!(
        estimated_position_ms(50_000, 0, 0, 60_000, PlaybackStatus::Playing, 1_000_000),
        Some(6)
    );
    assert_eq!(
        estimated_position_ms(-5, 0, 0, 0, PlaybackStatus::Stopped, 0),
        None
    );
    assert_eq!(windows_time_from_unix_100ns(0), WINDOWS_TO_UNIX_EPOCH_100NS);
    assert_eq!(windows_time_from_unix_100ns(u128::MAX), i64::MAX);
}

#[test]
fn volume_step_and_target() {
    assert_eq!(volume_step(MediaCommand::VolumeUp), Some("+5%"));
    assert_eq!(volume_step(MediaCommand::VolumeDown), Some("-5%"));
    assert_eq!(volume_step(MediaCommand::Play), None);
    assert_eq!(volume_target(None), "@DEFAULT_SINK@");
    assert_eq!(volume_target(Some("alsa_output.test")), "alsa_output.test");
}

#[test]
fn select_player_takes_first_mpris_name() {
    let names = vec![
        "org.freedesktop.DBus".to_string(),
        "org.mpris.MediaPlayer2".to_string(),
        "org.mpris.MediaPlayer2.spotify".to_string(),
        "org.mpris.MediaPlayer2.vlc".to_string(),
    ];
    assert_eq!(select_player(&names), Ok("org.mpris.MediaPlayer2.spotify".to_string()));
    assert_eq!(
        select_player(&vec![":1.42".to_string()]),
        Err("no MPRIS media players found".to_string())
    );
    assert_eq!(select_player(&Vec::new()), Err("no MPRIS media players found".to_string()));
}

#[test]
fn mpris_step_skips_play_only_while_playing_and_needs_a_track_for_set_position() {
    let play = MprisCall::PlayUnlessPlaying;
    assert!(matches!(mpris_step(play, Some("Playing"), None), MprisStep::SkipAlreadyPlaying));
    assert!(matches!(
        mpris_step(play, Some("Paused"), None),
        MprisStep::Invoke { call: MprisCall::PlayUnlessPlaying, track_id: None }
    ));
    assert!(matches!(
        mpris_step(play, None, None),
        MprisStep::Invoke { call: MprisCall::PlayUnlessPlaying, track_id: None }
    ));
    let set = MprisCall::SetPosition { position_us: 5_000 };
    match mpris_step(set, None, Some("/track/7".to_string())) {
        MprisStep::Invoke { call, track_id } => {
            assert_eq!(call, set);
            assert_eq!(track_id.as_deref(), Some("/track/7"));
        }
        _ => panic!("SetPosition with a track must be invoked"),
    }
    match mpris_step(set, None, None) {
        MprisStep::Fail(e) => assert_eq!(e, "no MPRIS track ID available"),
        _ => panic!("SetPosition without a track must fail"),
    }
    let seek = MprisCall::Seek { offset_us: -3_000 };
    assert!(matches!(
        mpris_step(seek, Some("Playing"), Some("/t".to_string())),
        MprisStep::Invoke { call: MprisCall::Seek { offset_us: -3_000 }, track_id: None }
    ));
}

#[test]
fn linux_volume_change_targets_sink_and_step() {
    let up = linux_adjust_volume(MediaCommand::VolumeUp, Some("alsa_output.test")).unwrap();
    assert_eq!(up.sink, "alsa_output.test");
    assert_eq!(up.step, "+5%");
    let down = linux_adjust_volume(MediaCommand::VolumeDown, None).unwrap();
    assert_eq!(down.sink, "@DEFAULT_SINK@");
    assert_eq!(down.step, "-5%");
    assert!(linux_adjust_volume(MediaCommand::Play, Some("x")).is_none());
}

#[test]
fn windows_session_actions_for_commands() {
    assert_eq!(session_action(MediaCommand::Play, 0), SessionAction::Request(TransportRequest::Play));
    assert_eq!(session_action(MediaCommand::Pause, 0), SessionAction::Request(TransportRequest::Pause));
    assert_eq!(
        session_action(MediaCommand::PlayPause, 0),
        SessionAction::Request(TransportRequest::TogglePlayPause)
    );
    assert_eq!(session_action(MediaCommand::Next, 0), SessionAction::Request(TransportRequest::SkipNext));
    assert_eq!(session_action(MediaCommand::SeekRelativeMs, -250), SessionAction::SeekBy { delta_ms: -250 });
    assert_eq!(session_action(MediaCommand::SeekAbsoluteMs, 1_500), SessionAction::SeekTo { position_100ns: 15_000_000 });
    assert_eq!(session_action(MediaCommand::SeekAbsoluteMs, -5), SessionAction::SeekTo { position_100ns: 0 });
    assert_eq!(session_action(MediaCommand::VolumeUp, 3), SessionAction::Nothing);
}
