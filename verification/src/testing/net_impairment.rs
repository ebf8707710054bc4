//! One-shot network gaps injected into the audio stream for testing how
//! clients recover.

use vstd::prelude::*;
use std::time::Duration;
use crate::text::{decimal, decimal_string};

verus! {

/// The gap lengths, in milliseconds, that may be requested.
pub const ALLOWED_ONE_SHOT_DELAYS_MS: [u64; 7] = [50, 100, 200, 300, 500, 700, 1000];

pub open spec fn is_allowed_delay(delay_ms: u64) -> bool {
    delay_ms == 50 || delay_ms == 100 || delay_ms == 200 || delay_ms == 300 || delay_ms == 500
        || delay_ms == 700 || delay_ms == 1000
}

/// The `Duration` that `Duration::from_millis` returns for `ms`.
pub uninterp spec fn duration_of_millis(ms: u64) -> Duration;

/// `Duration::from_millis`: the duration of `ms` milliseconds.
#[verifier::external_body]
fn duration_from_millis(ms: u64) -> (d: Duration)
    ensures
        d == duration_of_millis(ms),
{
    Duration::from_millis(ms)
}

pub struct NetImpairmentController {
    pending_gap_ms: u64,
}

impl NetImpairmentController {
    /// The gap waiting to be injected, 0 when none.
    pub closed spec fn pending(&self) -> u64 {
        self.pending_gap_ms
    }

    pub fn new() -> (c: Self)
        ensures
            c.pending() == 0,
    {
        NetImpairmentController { pending_gap_ms: 0 }
    }

    /// Schedules a one-shot gap of `delay_ms`, replacing any pending one.
    /// Only the allowed lengths are accepted.
    pub fn trigger_gap_once_ms(&mut self, delay_ms: u64) -> (r: Result<(), String>)
        ensures
            r is Ok <==> is_allowed_delay(delay_ms),
            r is Ok ==> final(self).pending() == delay_ms,
            r matches Err(e) ==> e@ == "Unsupported delay: "@ + decimal(delay_ms as nat) + " ms"@
                && final(self).pending() == old(self).pending(),
    {
        let mut allowed = false;
        let mut i: usize = 0;
        while i < 7
            invariant
                i <= 7,
                allowed <==> exists|k: int| 0 <= k < i && ALLOWED_ONE_SHOT_DELAYS_MS@[k] == delay_ms,
            decreases 7 - i,
        {
            if ALLOWED_ONE_SHOT_DELAYS_MS[i] == delay_ms {
                allowed = true;
            }
            i += 1;
        }
        assert(allowed <==> is_allowed_delay(delay_ms)) by {
            if is_allowed_delay(delay_ms) {
                if delay_ms == 50 { assert(ALLOWED_ONE_SHOT_DELAYS_MS@[0] == delay_ms); }
                if delay_ms == 100 { assert(ALLOWED_ONE_SHOT_DELAYS_MS@[1] == delay_ms); }
                if delay_ms == 200 { assert(ALLOWED_ONE_SHOT_DELAYS_MS@[2] == delay_ms); }
                if delay_ms == 300 { assert(ALLOWED_ONE_SHOT_DELAYS_MS@[3] == delay_ms); }
                if delay_ms == 500 { assert(ALLOWED_ONE_SHOT_DELAYS_MS@[4] == delay_ms); }
                if delay_ms == 700 { assert(ALLOWED_ONE_SHOT_DELAYS_MS@[5] == delay_ms); }
                if delay_ms == 1000 { assert(ALLOWED_ONE_SHOT_DELAYS_MS@[6] == delay_ms); }
            }
        }
        if !allowed {
            let mut message = String::from_str("Unsupported delay: ");
            let digits = decimal_string(delay_ms);
            message.append(digits.as_str());
            message.append(" ms");
            return Err(message);
        }
        self.pending_gap_ms = delay_ms;
        Ok(())
    }

    /// Takes the pending gap, leaving none.
    pub fn take_gap_once(&mut self) -> (r: Option<Duration>)
        ensures
            final(self).pending() == 0,
            old(self).pending() == 0 ==> r is None,
            old(self).pending() != 0 ==> r == Some(duration_of_millis(old(self).pending())),
    {
        let delay_ms = self.pending_gap_ms;
        self.pending_gap_ms = 0;
        if delay_ms == 0 {
            None
        } else {
            Some(duration_from_millis(delay_ms))
        }
    }
}

/// A gap scheduled with an allowed length is handed out exactly once: the
/// first take returns it and the next returns nothing.
pub proof fn lemma_gap_taken_once(
    c0: NetImpairmentController,
    c1: NetImpairmentController,
    c2: NetImpairmentController,
    c3: NetImpairmentController,
    delay_ms: u64,
    first: Option<Duration>,
    second: Option<Duration>,
)
    requires
        is_allowed_delay(delay_ms),
        c1.pending() == delay_ms,
        take_outcome(c1, c2, first),
        take_outcome(c2, c3, second),
    ensures
        first == Some(duration_of_millis(delay_ms)),
        second is None,
{
}

/// What `take_gap_once` guarantees, from the state before to the state
/// after and the value returned.
pub open spec fn take_outcome(
    before: NetImpairmentController,
    after: NetImpairmentController,
    r: Option<Duration>,
) -> bool {
    &&& after.pending() == 0
    &&& before.pending() == 0 ==> r is None
    &&& before.pending() != 0 ==> r == Some(duration_of_millis(before.pending()))
}

} // verus!
