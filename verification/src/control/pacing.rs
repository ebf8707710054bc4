//! Pacing of the stream loop and its send diagnostics: when the next frame
//! is due, how late the loop ran, and which sends came after a gap or in a
//! burst right after one. Times are nanoseconds on the caller's monotonic
//! clock.

use vstd::prelude::*;

verus! {

/// Two sends further apart than this (200 ms) are a gap.
pub const SEND_GAP_NS: u64 = 200_000_000;

/// A send closer than this (5 ms) to the previous one, right after a gap,
/// is a burst.
pub const BURST_AFTER_GAP_NS: u64 = 5_000_000;

/// How a send is spaced from the one before it.
#[derive(Clone, Copy, Debug, PartialEq, Eq, Structural)]
pub enum SendSpacing {
    /// The first send of the stream.
    First,
    Regular,
    /// Longer than `SEND_GAP_NS` after the previous send.
    Gap,
    /// Shorter than `BURST_AFTER_GAP_NS` after a send that ended a gap.
    BurstAfterGap,
}

/// What one diagnostics window of the stream loop saw.
#[derive(Clone, Copy, Debug)]
pub struct StreamWindow {
    pub sent: u64,
    pub gap_over_200: u64,
    pub burst_after_gap: u64,
    pub send_delta_max_ns: u64,
    pub pacer_late_max_ns: u64,
}

/// The pacing state of the stream loop.
pub struct StreamPacer {
    pub frame_duration_ns: u64,
    /// When the next frame is due.
    pub next_send_at_ns: u64,
    pub last_send_at_ns: Option<u64>,
    /// Whether the interval before the last send was a gap.
    pub last_interval_was_gap: bool,
    /// The sequence number of the next packet.
    pub seq: u32,
    pub sent_window: u64,
    pub gap_over_200_window: u64,
    pub burst_after_gap_window: u64,
    pub send_delta_max_ns: u64,
    pub pacer_late_max_ns: u64,
}

/// `a - b`, or zero when `b` is later (`Instant::duration_since`).
pub open spec fn elapsed(a: u64, b: u64) -> u64 {
    if a >= b {
        (a - b) as u64
    } else {
        0
    }
}

pub open spec fn max_u64(a: u64, b: u64) -> u64 {
    if a >= b {
        a
    } else {
        b
    }
}

/// How a send at `sent_at` is spaced, given the previous send and whether
/// that one ended a gap.
pub open spec fn spacing_of(last_send_at: Option<u64>, last_was_gap: bool, sent_at: u64) -> SendSpacing {
    match last_send_at {
        None => SendSpacing::First,
        Some(prev) => {
            let delta = elapsed(sent_at, prev);
            if delta > SEND_GAP_NS {
                SendSpacing::Gap
            } else if last_was_gap && delta < BURST_AFTER_GAP_NS {
                SendSpacing::BurstAfterGap
            } else {
                SendSpacing::Regular
            }
        },
    }
}

impl StreamPacer {
    /// A pacer whose first frame is due at `now_ns`.
    pub fn new(frame_duration_ns: u64, now_ns: u64) -> (p: Self)
        ensures
            p.frame_duration_ns == frame_duration_ns,
            p.next_send_at_ns == now_ns,
            p.last_send_at_ns is None,
            !p.last_interval_was_gap,
            p.seq == 0,
            p.sent_window == 0,
            p.gap_over_200_window == 0,
            p.burst_after_gap_window == 0,
            p.send_delta_max_ns == 0,
            p.pacer_late_max_ns == 0,
    {
        StreamPacer {
            frame_duration_ns,
            next_send_at_ns: now_ns,
            last_send_at_ns: None,
            last_interval_was_gap: false,
            seq: 0,
            sent_window: 0,
            gap_over_200_window: 0,
            burst_after_gap_window: 0,
            send_delta_max_ns: 0,
            pacer_late_max_ns: 0,
        }
    }

    /// After a pause, the next frame is due at once.
    pub fn resume_at(&mut self, now_ns: u64)
        ensures
            *final(self) == (StreamPacer { next_send_at_ns: now_ns, ..*old(self) }),
    {
        self.next_send_at_ns = now_ns;
    }

    /// When a frame is ready at `now_ns`: the time to wait for when it is
    /// early; else `None`, and how late it is counts toward the window's
    /// maximum.
    pub fn send_deadline(&mut self, now_ns: u64) -> (wait_until: Option<u64>)
        ensures
            now_ns < old(self).next_send_at_ns ==> wait_until == Some(old(self).next_send_at_ns)
                && *final(self) == *old(self),
            now_ns >= old(self).next_send_at_ns ==> wait_until is None && *final(self) == (
            StreamPacer {
                pacer_late_max_ns: max_u64(
                    old(self).pacer_late_max_ns,
                    (now_ns - old(self).next_send_at_ns) as u64,
                ),
                ..*old(self)
            }),
    {
        if now_ns < self.next_send_at_ns {
            return Some(self.next_send_at_ns);
        }
        let late = now_ns - self.next_send_at_ns;
        if late > self.pacer_late_max_ns {
            self.pacer_late_max_ns = late;
        }
        None
    }

    /// Whether a send can be recorded without a counter or the schedule
    /// running past `u64::MAX`.
    pub open spec fn can_record_send_spec(&self) -> bool {
        &&& self.sent_window < u64::MAX
        &&& self.gap_over_200_window < u64::MAX
        &&& self.burst_after_gap_window < u64::MAX
        &&& self.next_send_at_ns + self.frame_duration_ns <= u64::MAX
    }

    pub fn can_record_send(&self) -> (r: bool)
        ensures
            r == self.can_record_send_spec(),
    {
        self.sent_window < u64::MAX && self.gap_over_200_window < u64::MAX
            && self.burst_after_gap_window < u64::MAX && self.frame_duration_ns <= u64::MAX
            - self.next_send_at_ns
    }

    /// Records a packet sent at `sent_at_ns`: its spacing from the previous
    /// send, the window's counters and largest spacing, and the schedule:
    /// the next frame is due one frame duration after this one was, but
    /// not before this send. The sequence number advances, wrapping.
    pub fn record_sent(&mut self, sent_at_ns: u64) -> (spacing: SendSpacing)
        requires
            old(self).can_record_send_spec(),
        ensures
            spacing == spacing_of(
                old(self).last_send_at_ns,
                old(self).last_interval_was_gap,
                sent_at_ns,
            ),
            final(self).send_delta_max_ns == match old(self).last_send_at_ns {
                Some(prev) => max_u64(old(self).send_delta_max_ns, elapsed(sent_at_ns, prev)),
                None => old(self).send_delta_max_ns,
            },
            final(self).gap_over_200_window == old(self).gap_over_200_window + if spacing
                == SendSpacing::Gap {
                1int
            } else {
                0int
            },
            final(self).burst_after_gap_window == old(self).burst_after_gap_window + if spacing
                == SendSpacing::BurstAfterGap {
                1int
            } else {
                0int
            },
            final(self).last_interval_was_gap == match spacing {
                SendSpacing::First => old(self).last_interval_was_gap,
                SendSpacing::Gap => true,
                _ => false,
            },
            final(self).sent_window == old(self).sent_window + 1,
            final(self).last_send_at_ns == Some(sent_at_ns),
            final(self).next_send_at_ns == max_u64(
                (old(self).next_send_at_ns + old(self).frame_duration_ns) as u64,
                sent_at_ns,
            ),
            final(self).seq == (if old(self).seq == u32::MAX {
                0
            } else {
                old(self).seq + 1
            }),
            final(self).frame_duration_ns == old(self).frame_duration_ns,
            final(self).pacer_late_max_ns == old(self).pacer_late_max_ns,
    {
        let mut spacing = SendSpacing::First;
        if let Some(prev) = self.last_send_at_ns {
            let delta = if sent_at_ns >= prev {
                sent_at_ns - prev
            } else {
                0
            };
            if delta > self.send_delta_max_ns {
                self.send_delta_max_ns = delta;
            }
            if delta > SEND_GAP_NS {
                self.gap_over_200_window = self.gap_over_200_window + 1;
                self.last_interval_was_gap = true;
                spacing = SendSpacing::Gap;
            } else {
                if self.last_interval_was_gap && delta < BURST_AFTER_GAP_NS {
                    self.burst_after_gap_window = self.burst_after_gap_window + 1;
                    spacing = SendSpacing::BurstAfterGap;
                } else {
                    spacing = SendSpacing::Regular;
                }
                self.last_interval_was_gap = false;
            }
        }
        self.sent_window = self.sent_window + 1;
        self.last_send_at_ns = Some(sent_at_ns);
        self.next_send_at_ns = self.next_send_at_ns + self.frame_duration_ns;
        if self.next_send_at_ns < sent_at_ns {
            self.next_send_at_ns = sent_at_ns;
        }
        self.seq = self.seq.wrapping_add(1);
        spacing
    }

    /// Closes the diagnostics window and starts the next one from zero.
    pub fn take_window(&mut self) -> (w: StreamWindow)
        ensures
            w.sent == old(self).sent_window,
            w.gap_over_200 == old(self).gap_over_200_window,
            w.burst_after_gap == old(self).burst_after_gap_window,
            w.send_delta_max_ns == old(self).send_delta_max_ns,
            w.pacer_late_max_ns == old(self).pacer_late_max_ns,
            *final(self) == (StreamPacer {
                sent_window: 0,
                gap_over_200_window: 0,
                burst_after_gap_window: 0,
                send_delta_max_ns: 0,
                pacer_late_max_ns: 0,
                ..*old(self)
            }),
    {
        let w = StreamWindow {
            sent: self.sent_window,
            gap_over_200: self.gap_over_200_window,
            burst_after_gap: self.burst_after_gap_window,
            send_delta_max_ns: self.send_delta_max_ns,
            pacer_late_max_ns: self.pacer_late_max_ns,
        };
        self.sent_window = 0;
        self.gap_over_200_window = 0;
        self.burst_after_gap_window = 0;
        self.send_delta_max_ns = 0;
        self.pacer_late_max_ns = 0;
        w
    }
}

} // verus!
