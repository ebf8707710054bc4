use minnty_sound_server::audio::capture::{sizing_for, take_frame};
use minnty_sound_server::control::http::{
    absolute_frame, calibration_hits, frames_for_ms, interleave_channels, noise_bits,
    offset_at_hit,
};
use minnty_sound_server::control::messages::{build_stream_packet, StreamConfig, MSG_HELLO, MSG_KEEPALIVE, MAGIC, VERSION};
use minnty_sound_server::discovery::{mdns_host_name, mdns_instance_name};
use minnty_sound_server::encode::opus::{finish_packet, opus_channels, packet_buffer, OpusChannels, MAX_PACKET_SIZE};
use minnty_sound_server::i18n::{available_locales, choose_locale, direction};
use minnty_sound_server::launcher::build_launcher_icon_rgba;
use minnty_sound_server::monitor::{build_control_packet, stream_packet_payload};
use minnty_sound_server::text::{decimal_string, trimmed};

#[test]
fn choose_locale_examples() {
    assert_eq!(choose_locale("de_DE.UTF-8"), Some("de"));
    assert_eq!(choose_locale("pt_BR.UTF-8"), Some("pt-BR"));
    assert_eq!(choose_locale("pt-PT"), Some("pt-BR"));
    assert_eq!(choose_locale("zh_TW"), Some("zh-Hant"));
    assert_eq!(choose_locale("zh-HK"), Some("zh-Hant"));
    assert_eq!(choose_locale("zh_CN.UTF-8"), Some("zh-Hans"));
    assert_eq!(choose_locale("zh"), Some("zh-Hans"));
    assert_eq!(choose_locale("xx, fr-CA;q=0.8, en;q=0.5"), Some("fr"));
    assert_eq!(choose_locale("  EN-us ;q=1"), Some("en"));
    assert_eq!(choose_locale("C"), None);
    assert_eq!(choose_locale(""), None);
    assert_eq!(choose_locale("xx,"), None);
    assert_eq!(choose_locale("\u{3000}ja\u{3000}"), Some("ja"));
}

#[test]
fn directions_and_available_locales() {
    assert_eq!(direction("ar"), "rtl");
    assert_eq!(direction("en"), "ltr");
    assert_eq!(direction("he"), "ltr");
    let locales = available_locales();
    assert_eq!(locales.len(), 15);
    assert_eq!(locales[0].code, "en");
    assert_eq!(locales[1].code, "ar");
    assert_eq!(locales[1].dir, "rtl");
    assert_eq!(locales[9].name, "Português (Brasil)");
    for l in &locales {
        assert_eq!(l.dir, direction(l.code));
    }
}

#[test]
fn monitor_packets() {
    assert_eq!(build_control_packet(MSG_HELLO), vec![77, 78, 84, 89, VERSION, MSG_HELLO]);
    assert_eq!(&build_control_packet(MSG_KEEPALIVE)[0..4], MAGIC.as_slice());
    let packet = build_stream_packet(3, 4, &[9, 8, 7]);
    assert_eq!(stream_packet_payload(&packet), Some(&[9u8, 8, 7][..]));
    let mut longer = packet.to_vec();
    longer.push(1);
    assert_eq!(stream_packet_payload(&longer), Some(&[9u8, 8, 7][..]));
    assert_eq!(stream_packet_payload(&packet[..16]), None);
    assert_eq!(stream_packet_payload(&packet[..10]), None);
    let mut wrong = packet.to_vec();
    wrong[0] = 2;
    assert_eq!(stream_packet_payload(&wrong), None);
}

#[test]
fn calibration_timing() {
    assert_eq!(frames_for_ms(48_000, 170), 8_160);
    assert_eq!(frames_for_ms(44_100, 5), 220);
    // 48 kHz at 100 bpm: quarter note 28 800 frames, eighth 14 400.
    let hits = calibration_hits(48_000, 28_800 + 10);
    assert_eq!(hits.kick_on_one, Some(28_810));
    assert_eq!(hits.snare_on_two, Some(10));
    assert_eq!(hits.kick_on_three, None);
    assert_eq!(hits.snare_on_four, None);
    assert_eq!(hits.hat, 10);
    let next_bar = calibration_hits(48_000, 4 * 28_800 + 3);
    assert_eq!(next_bar.kick_on_one, Some(3));
    assert_eq!(offset_at_hit(5, 9), None);
    assert_eq!(offset_at_hit(9, 5), Some(4));
    assert_eq!(absolute_frame(2, 480, 7), 967);
    assert_eq!(interleave_channels(&vec![1, 2, 3], 2), vec![1, 1, 2, 2, 3, 3]);
    assert_eq!(interleave_channels(&vec![5], 1), vec![5]);
    // One step of the generator from index 0.
    let x: u64 = 1442695040888963407;
    let y = x ^ (x >> 33);
    assert_eq!(noise_bits(0) as u64, (y >> 32) & 0xffff);
}

#[test]
fn capture_sizing_and_frames() {
    let sizing = sizing_for(StreamConfig::default());
    assert_eq!(sizing.frame_samples, 960);
    assert_eq!(sizing.fragment_bytes, 1920);
    assert_eq!(sizing.ring_capacity, 960 * 64 * 2);
    assert_eq!(sizing.backlog_warn_threshold, 960 * 64);
    let mut pending = vec![1i16, 2, 3, 4, 5];
    let frame = take_frame(&mut pending, 2);
    assert_eq!(frame, vec![1, 2]);
    assert_eq!(pending, vec![3, 4, 5]);
}

#[test]
fn opus_helpers() {
    assert_eq!(opus_channels(1), OpusChannels::Mono);
    assert_eq!(opus_channels(2), OpusChannels::Stereo);
    assert_eq!(opus_channels(6), OpusChannels::Stereo);
    let buffer = packet_buffer();
    assert_eq!(buffer.len(), MAX_PACKET_SIZE);
    assert_eq!(finish_packet(vec![1, 2, 3, 4], 2), vec![1, 2]);
    assert_eq!(finish_packet(vec![1, 2], 5), vec![1, 2]);
}

#[test]
fn launcher_icon_pixels() {
    let rgba = build_launcher_icon_rgba();
    assert_eq!(rgba.len(), 16 * 16 * 4);
    let pixel = |x: usize, y: usize| &rgba[(y * 16 + x) * 4..(y * 16 + x) * 4 + 4];
    assert_eq!(pixel(0, 0), &[0x0f, 0x17, 0x2a, 0xff]);
    assert_eq!(pixel(15, 7), &[0x0f, 0x17, 0x2a, 0xff]);
    assert_eq!(pixel(5, 5), &[0x22, 0xc5, 0x5e, 0xff]);
    assert_eq!(pixel(10, 10), &[0x22, 0xc5, 0x5e, 0xff]);
    assert_eq!(pixel(4, 5), &[0x1f, 0x29, 0x37, 0xff]);
    assert_eq!(pixel(11, 11), &[0x1f, 0x29, 0x37, 0xff]);
}

#[test]
fn text_helpers() {
    assert_eq!(decimal_string(0), "0");
    assert_eq!(decimal_string(250), "250");
    assert_eq!(decimal_string(u64::MAX), u64::MAX.to_string());
    assert_eq!(trimmed("  a b \t\n"), "a b");
    assert_eq!(trimmed("   "), "");
}

#[test]
fn mdns_names() {
    let instance = mdns_instance_name("fe80::1");
    assert_eq!(instance, "minnty-fe80--1");
    assert_eq!(mdns_instance_name("192.168.1.5"), "minnty-192.168.1.5");
    assert_eq!(mdns_host_name(&instance), "minnty-fe80--1.local.");
}
