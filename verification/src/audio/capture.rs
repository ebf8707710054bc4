//! Sizing of the capture pipeline and the chunking of captured samples into
//! PCM frames.

use vstd::prelude::*;
use crate::control::messages::StreamConfig;

verus! {

/// One frame of interleaved 16-bit PCM and the wall-clock time it was
/// captured at.
#[derive(Debug)]
pub struct PcmFrame {
    pub timestamp_ms: u64,
    pub samples: Vec<i16>,
}

/// Buffer sizes derived from the stream configuration.
#[derive(Clone, Copy, Debug)]
pub struct CaptureSizing {
    /// Interleaved samples per frame.
    pub frame_samples: usize,
    /// Bytes PulseAudio delivers per read (one frame of 16-bit samples).
    pub fragment_bytes: u32,
    /// Capacity of the sample ring between the audio callback and the
    /// frame worker: two queues' worth of frames, at least one frame.
    pub ring_capacity: usize,
    /// Backlog, in samples, above which a warning is logged.
    pub backlog_warn_threshold: usize,
}

pub open spec fn saturating_mul_usize(a: int, b: int) -> int {
    if a * b > usize::MAX {
        usize::MAX as int
    } else {
        a * b
    }
}

/// `usize::saturating_mul`.
pub fn saturating_mul(a: usize, b: usize) -> (r: usize)
    ensures
        r == saturating_mul_usize(a as int, b as int),
{
    match a.checked_mul(b) {
        Some(p) => p,
        None => usize::MAX,
    }
}

/// The capture buffer sizes for `config`. PulseAudio takes the fragment
/// size as a `u32`, so a frame's bytes must fit one: configurations whose
/// frame is larger are not accepted (`requires`), and the caller refuses
/// them before asking.
pub fn sizing_for(config: StreamConfig) -> (s: CaptureSizing)
    requires
        config.frame_size * config.channels * 2 <= u32::MAX,
    ensures
        s.frame_samples == config.frame_size * config.channels,
        s.fragment_bytes == config.frame_size * config.channels * 2,
        s.ring_capacity == ({
            let r = saturating_mul_usize(
                saturating_mul_usize(s.frame_samples as int, config.pcm_queue_depth as int),
                2,
            );
            if r >= s.frame_samples {
                r
            } else {
                s.frame_samples as int
            }
        }),
        s.backlog_warn_threshold == saturating_mul_usize(
            s.frame_samples as int,
            config.pcm_queue_depth as int,
        ),
{
    let frame_samples = config.frame_size * config.channels as usize;
    let fragment_bytes = (frame_samples * 2) as u32;
    let queued = saturating_mul(frame_samples, config.pcm_queue_depth);
    let doubled = saturating_mul(queued, 2);
    let ring_capacity = if doubled >= frame_samples { doubled } else { frame_samples };
    CaptureSizing {
        frame_samples,
        fragment_bytes,
        ring_capacity,
        backlog_warn_threshold: queued,
    }
}

/// Takes the first frame of `frame_samples` samples off the front of
/// `pending`.
pub fn take_frame(pending: &mut Vec<i16>, frame_samples: usize) -> (frame: Vec<i16>)
    requires
        frame_samples <= old(pending)@.len(),
    ensures
        frame@ == old(pending)@.take(frame_samples as int),
        final(pending)@ == old(pending)@.skip(frame_samples as int),
{
    let mut frame = pending.split_off(frame_samples);
    std::mem::swap(pending, &mut frame);
    frame
}

/// The capture worker emits at most this many frames per cycle, so that a
/// backlog drains in steps instead of starving the ring.
pub const MAX_WORKER_FRAMES_PER_CYCLE: usize = 3;

/// What became of a frame handed to the frame queue.
#[derive(Clone, Copy, Debug, PartialEq, Eq, Structural)]
pub enum SendOutcome {
    Sent,
    /// The queue was full; the frame is dropped.
    Full,
    /// The receiving side is gone; the worker ends.
    Closed,
}

/// What one diagnostics window of the capture worker saw.
#[derive(Clone, Copy, Debug)]
pub struct CaptureWindow {
    pub emitted: u64,
    pub dropped_full: u64,
    pub backlog_max: usize,
    /// Whether the backlog went above the warning threshold.
    pub backlog_high: bool,
    /// Whether the audio callback paused for longer than
    /// `CALLBACK_GAP_WARN_MS` in this window.
    pub callback_gap_high: bool,
}

/// A pause between two audio callbacks longer than this many milliseconds
/// is reported.
pub const CALLBACK_GAP_WARN_MS: u64 = 200;

/// The decisions of the worker thread that turns the samples of the
/// capture ring into frames: the samples not yet framed, and the counters
/// of the current diagnostics window.
pub struct CaptureWorker {
    pub sizing: CaptureSizing,
    pub pending: Vec<i16>,
    pub emitted_window: u64,
    pub dropped_full_window: u64,
    pub backlog_max_window: usize,
}

impl CaptureWorker {
    pub open spec fn wf(&self) -> bool {
        &&& self.sizing.frame_samples > 0
        &&& self.sizing.frame_samples * MAX_WORKER_FRAMES_PER_CYCLE <= usize::MAX
    }

    /// A worker with nothing pending and empty counters.
    pub fn new(sizing: CaptureSizing) -> (w: Self)
        requires
            sizing.frame_samples > 0,
            sizing.frame_samples * MAX_WORKER_FRAMES_PER_CYCLE <= usize::MAX,
        ensures
            w.wf(),
            w.sizing == sizing,
            w.pending@.len() == 0,
            w.emitted_window == 0,
            w.dropped_full_window == 0,
            w.backlog_max_window == 0,
    {
        CaptureWorker {
            sizing,
            pending: Vec::new(),
            emitted_window: 0,
            dropped_full_window: 0,
            backlog_max_window: 0,
        }
    }

    /// How many samples one cycle pulls from the ring at most.
    pub fn samples_per_cycle(&self) -> (n: usize)
        requires
            self.wf(),
        ensures
            n == self.sizing.frame_samples * MAX_WORKER_FRAMES_PER_CYCLE,
    {
        self.sizing.frame_samples * MAX_WORKER_FRAMES_PER_CYCLE
    }

    /// Takes one sample pulled from the ring.
    pub fn push_sample(&mut self, sample: i16)
        ensures
            final(self).pending@ == old(self).pending@.push(sample),
            final(self).sizing == old(self).sizing,
            final(self).emitted_window == old(self).emitted_window,
            final(self).dropped_full_window == old(self).dropped_full_window,
            final(self).backlog_max_window == old(self).backlog_max_window,
    {
        self.pending.push(sample);
    }

    /// Takes the ring's count of unread samples. A count above the ring's
    /// capacity is stale: the caller resets the counter (`true`) and the
    /// backlog counts as empty. The window keeps the largest backlog seen.
    pub fn observe_backlog(&mut self, raw_backlog: usize) -> (reset: bool)
        ensures
            reset == (raw_backlog > old(self).sizing.ring_capacity),
            final(self).backlog_max_window == ({
                let backlog = if reset {
                    0
                } else {
                    raw_backlog
                };
                if backlog > old(self).backlog_max_window {
                    backlog
                } else {
                    old(self).backlog_max_window
                }
            }),
            final(self).sizing == old(self).sizing,
            final(self).pending@ == old(self).pending@,
            final(self).emitted_window == old(self).emitted_window,
            final(self).dropped_full_window == old(self).dropped_full_window,
    {
        let reset = raw_backlog > self.sizing.ring_capacity;
        let backlog = if reset {
            0
        } else {
            raw_backlog
        };
        if backlog > self.backlog_max_window {
            self.backlog_max_window = backlog;
        }
        reset
    }

    /// The next frame of this cycle, taken off the front of the pending
    /// samples: there is one while a whole frame is pending and fewer than
    /// `MAX_WORKER_FRAMES_PER_CYCLE` frames were emitted this cycle.
    pub fn next_frame(&mut self, emitted_this_cycle: usize) -> (frame: Option<Vec<i16>>)
        requires
            old(self).wf(),
        ensures
            final(self).wf(),
            final(self).sizing == old(self).sizing,
            final(self).emitted_window == old(self).emitted_window,
            final(self).dropped_full_window == old(self).dropped_full_window,
            final(self).backlog_max_window == old(self).backlog_max_window,
            ({
                let fs = old(self).sizing.frame_samples as int;
                if old(self).pending@.len() >= fs && emitted_this_cycle < MAX_WORKER_FRAMES_PER_CYCLE {
                    &&& frame matches Some(f) && f@ == old(self).pending@.take(fs)
                    &&& final(self).pending@ == old(self).pending@.skip(fs)
                } else {
                    &&& frame is None
                    &&& final(self).pending@ == old(self).pending@
                }
            }),
    {
        if self.pending.len() >= self.sizing.frame_samples
            && emitted_this_cycle < MAX_WORKER_FRAMES_PER_CYCLE {
            let fs = self.sizing.frame_samples;
            Some(take_frame(&mut self.pending, fs))
        } else {
            None
        }
    }

    /// Counts what became of a frame; `false` when the worker must end.
    pub fn record_send(&mut self, outcome: SendOutcome) -> (keep_running: bool)
        requires
            outcome == SendOutcome::Sent ==> old(self).emitted_window < u64::MAX,
            outcome == SendOutcome::Full ==> old(self).dropped_full_window < u64::MAX,
        ensures
            keep_running == (outcome != SendOutcome::Closed),
            final(self).emitted_window == old(self).emitted_window + if outcome
                == SendOutcome::Sent {
                1int
            } else {
                0int
            },
            final(self).dropped_full_window == old(self).dropped_full_window + if outcome
                == SendOutcome::Full {
                1int
            } else {
                0int
            },
            final(self).sizing == old(self).sizing,
            final(self).pending@ == old(self).pending@,
            final(self).backlog_max_window == old(self).backlog_max_window,
    {
        match outcome {
            SendOutcome::Sent => {
                self.emitted_window = self.emitted_window + 1;
                true
            },
            SendOutcome::Full => {
                self.dropped_full_window = self.dropped_full_window + 1;
                true
            },
            SendOutcome::Closed => false,
        }
    }

    /// Closes the diagnostics window: its counters, whether the backlog
    /// went above the warning threshold, and whether the longest callback
    /// gap of the window is worth a warning. The counters restart from zero.
    pub fn take_window(&mut self, callback_gap_max_ms: u64) -> (w: CaptureWindow)
        ensures
            w.callback_gap_high == (callback_gap_max_ms > CALLBACK_GAP_WARN_MS),
            w.emitted == old(self).emitted_window,
            w.dropped_full == old(self).dropped_full_window,
            w.backlog_max == old(self).backlog_max_window,
            w.backlog_high == (old(self).backlog_max_window
                > old(self).sizing.backlog_warn_threshold),
            final(self).emitted_window == 0,
            final(self).dropped_full_window == 0,
            final(self).backlog_max_window == 0,
            final(self).sizing == old(self).sizing,
            final(self).pending@ == old(self).pending@,
    {
        let w = CaptureWindow {
            emitted: self.emitted_window,
            dropped_full: self.dropped_full_window,
            backlog_max: self.backlog_max_window,
            backlog_high: self.backlog_max_window > self.sizing.backlog_warn_threshold,
            callback_gap_high: callback_gap_max_ms > CALLBACK_GAP_WARN_MS,
        };
        self.emitted_window = 0;
        self.dropped_full_window = 0;
        self.backlog_max_window = 0;
        w
    }

    /// Whether the worker is done: a stop was requested and no whole frame
    /// is left to emit.
    pub fn finished(&self, stop_requested: bool) -> (done: bool)
        ensures
            done == (stop_requested && self.pending@.len() < self.sizing.frame_samples),
    {
        stop_requested && self.pending.len() < self.sizing.frame_samples
    }
}

} // verus!
