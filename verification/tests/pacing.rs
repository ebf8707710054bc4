use minnty_sound_server::control::pacing::{SendSpacing, StreamPacer, BURST_AFTER_GAP_NS, SEND_GAP_NS};

const MS: u64 = 1_000_000;

#[test]
fn pacer_schedules_one_frame_duration_apart() {
    let mut pacer = StreamPacer::new(10 * MS, 0);
    assert_eq!(pacer.send_deadline(0), None);
    assert_eq!(pacer.record_sent(0), SendSpacing::First);
    assert_eq!(pacer.next_send_at_ns, 10 * MS);
    assert_eq!(pacer.seq, 1);
    // Early frames wait for their slot, without changing anything.
    assert_eq!(pacer.send_deadline(4 * MS), Some(10 * MS));
    assert_eq!(pacer.pacer_late_max_ns, 0);
    // Late frames are counted as late and sent at once.
    assert_eq!(pacer.send_deadline(13 * MS), None);
    assert_eq!(pacer.pacer_late_max_ns, 3 * MS);
    assert_eq!(pacer.record_sent(13 * MS), SendSpacing::Regular);
    assert_eq!(pacer.next_send_at_ns, 20 * MS);
    // A send far behind the schedule moves the schedule to it.
    assert_eq!(pacer.record_sent(50 * MS), SendSpacing::Regular);
    assert_eq!(pacer.next_send_at_ns, 50 * MS);
}

#[test]
fn pacer_reports_gaps_and_bursts_after_them() {
    let mut pacer = StreamPacer::new(10 * MS, 0);
    pacer.record_sent(0);
    assert_eq!(pacer.record_sent(SEND_GAP_NS + 1), SendSpacing::Gap);
    assert_eq!(pacer.record_sent(SEND_GAP_NS + 1 + BURST_AFTER_GAP_NS - 1), SendSpacing::BurstAfterGap);
    // Only the first send after the gap counts as a burst.
    assert_eq!(pacer.record_sent(SEND_GAP_NS + BURST_AFTER_GAP_NS + 1), SendSpacing::Regular);
    // Exactly the threshold is no gap.
    let t = pacer.last_send_at_ns.unwrap();
    assert_eq!(pacer.record_sent(t + SEND_GAP_NS), SendSpacing::Regular);
    let window = pacer.take_window();
    assert_eq!(window.sent, 5);
    assert_eq!(window.gap_over_200, 1);
    assert_eq!(window.burst_after_gap, 1);
    assert_eq!(window.send_delta_max_ns, SEND_GAP_NS + 1);
    let window = pacer.take_window();
    assert_eq!(window.sent, 0);
    assert_eq!(window.send_delta_max_ns, 0);
}

#[test]
fn pacer_resumes_after_a_pause_and_wraps_sequence_numbers() {
    let mut pacer = StreamPacer::new(10 * MS, 0);
    pacer.resume_at(500 * MS);
    assert_eq!(pacer.send_deadline(100 * MS), Some(500 * MS));
    pacer.seq = u32::MAX;
    assert!(pacer.can_record_send());
    pacer.record_sent(500 * MS);
    assert_eq!(pacer.seq, 0);
    pacer.next_send_at_ns = u64::MAX;
    assert!(!pacer.can_record_send());
}
