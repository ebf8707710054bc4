use minnty_sound_server::audio::capture::{CaptureSizing, CaptureWorker, SendOutcome, MAX_WORKER_FRAMES_PER_CYCLE};

fn small_sizing() -> CaptureSizing {
    CaptureSizing { frame_samples: 2, fragment_bytes: 4, ring_capacity: 8, backlog_warn_threshold: 4 }
}

#[test]
fn worker_frames_pending_samples_in_order_and_caps_each_cycle() {
    let mut worker = CaptureWorker::new(small_sizing());
    assert_eq!(worker.samples_per_cycle(), 2 * MAX_WORKER_FRAMES_PER_CYCLE);
    for s in 1..=9i16 {
        worker.push_sample(s);
    }
    assert_eq!(worker.next_frame(0), Some(vec![1, 2]));
    assert_eq!(worker.next_frame(1), Some(vec![3, 4]));
    assert_eq!(worker.next_frame(2), Some(vec![5, 6]));
    // Three frames per cycle at most.
    assert_eq!(worker.next_frame(3), None);
    assert_eq!(worker.pending, vec![7, 8, 9]);
    assert_eq!(worker.next_frame(0), Some(vec![7, 8]));
    // Less than a frame left.
    assert_eq!(worker.next_frame(0), None);
    assert_eq!(worker.pending, vec![9]);
}

#[test]
fn worker_counts_sends_and_stops_on_closed_queue() {
    let mut worker = CaptureWorker::new(small_sizing());
    assert!(worker.record_send(SendOutcome::Sent));
    assert!(worker.record_send(SendOutcome::Sent));
    assert!(worker.record_send(SendOutcome::Full));
    assert!(!worker.record_send(SendOutcome::Closed));
    let window = worker.take_window(250);
    assert_eq!(window.emitted, 2);
    assert_eq!(window.dropped_full, 1);
    assert!(window.callback_gap_high);
    let window = worker.take_window(200);
    assert_eq!(window.emitted, 0);
    assert_eq!(window.dropped_full, 0);
    assert!(!window.callback_gap_high);
}

#[test]
fn worker_tracks_backlog_and_resets_stale_counts() {
    let mut worker = CaptureWorker::new(small_sizing());
    assert!(!worker.observe_backlog(3));
    assert!(!worker.observe_backlog(1));
    assert_eq!(worker.backlog_max_window, 3);
    // A count above the ring capacity is stale and reads as empty.
    assert!(worker.observe_backlog(9));
    assert_eq!(worker.backlog_max_window, 3);
    assert!(!worker.observe_backlog(6));
    let window = worker.take_window(0);
    assert_eq!(window.backlog_max, 6);
    assert!(window.backlog_high);
    assert_eq!(worker.backlog_max_window, 0);
}

#[test]
fn worker_finishes_after_stop_once_no_frame_is_left() {
    let mut worker = CaptureWorker::new(small_sizing());
    worker.push_sample(1);
    worker.push_sample(2);
    assert!(!worker.finished(false));
    assert!(!worker.finished(true));
    let _ = worker.next_frame(0);
    assert!(worker.finished(true));
}
