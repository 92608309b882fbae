//! The backoff policy: how long to wait before the next connection attempt.
//!
//! All intervals are whole nanoseconds. The interval grows by half after each
//! failure until it reaches the configured maximum, and goes back to the
//! initial interval when an attempt succeeds. The policy has no deadline and
//! counts no attempts: it never says "give up".

use backoff::backoff::Backoff;
use backoff::ExponentialBackoff;
use std::time::Duration;
use vstd::prelude::*;

verus! {

/// The largest interval a retry state works with, in nanoseconds: `u32::MAX`
/// milliseconds, a little under fifty days.
pub const INTERVAL_LIMIT: u64 = 4_294_967_295_000_000;

/// The interval that follows `interval` under the cap `max_interval`: one and
/// a half times as long, rounded down to a whole nanosecond, but never more
/// than the cap.
pub open spec fn grown(interval: nat, max_interval: nat) -> nat {
    if interval * 3 / 2 <= max_interval {
        interval * 3 / 2
    } else {
        max_interval
    }
}

/// Lets `backoff` grow a retry interval by one step.
///
/// Trusted, not proved. The body sets up a `backoff::ExponentialBackoff` with
/// the given current and maximum interval and the crate's defaults for the
/// rest, among them the multiplier 1.5, and with no deadline, so that the call
/// grows the interval whatever the clock says. It calls
/// `Backoff::next_backoff` on it once and reads the `current_interval` that
/// the call leaves behind. The randomised delay that the call returns is
/// dropped: this policy waits for the interval itself, so that no wait exceeds
/// the cap.
///
/// The contract claims what `backoff` documents of its retry interval: it is
/// multiplied by the multiplier at each attempt, and stops growing at the
/// maximum. In the source, the new interval is `max_interval` where
/// `interval >= max_interval / 1.5`, and `interval * 1.5` cut to whole
/// nanoseconds otherwise. `backoff` computes this in `f64`. Up to
/// `INTERVAL_LIMIT`, which is below 2^52, both intervals and the product are
/// multiples of one half and held exactly; the rounded quotient is off by
/// less than a third, so it compares with a whole number as the true one
/// does; and the seconds and nanoseconds of the result are cut from the same
/// exact product. The outcome is therefore the whole-number formula `grown`.
#[verifier::external_body]
fn advance_interval(interval: u64, max_interval: u64) -> (next: u128)
    requires
        interval <= INTERVAL_LIMIT,
        max_interval <= INTERVAL_LIMIT,
    ensures
        next == grown(interval as nat, max_interval as nat),
{
    let mut policy = ExponentialBackoff {
        current_interval: Duration::from_nanos(interval),
        max_interval: Duration::from_nanos(max_interval),
        max_elapsed_time: None,
        ..ExponentialBackoff::default()
    };
    policy.next_backoff();
    policy.current_interval.as_nanos()
}

/// The retry interval that follows `interval` when the cap is `max_interval`.
pub fn next_interval(interval: u64, max_interval: u64) -> (next: u64)
    requires
        interval <= INTERVAL_LIMIT,
        max_interval <= INTERVAL_LIMIT,
    ensures
        next == grown(interval as nat, max_interval as nat),
{
    let next: u128 = advance_interval(interval, max_interval);
    next as u64
}

/// A retry state as plain numbers: every interval in nanoseconds.
pub struct RetryStateView {
    /// The interval a retry sequence starts from.
    pub initial_interval: nat,
    /// The cap that no interval exceeds.
    pub max_interval: nat,
    /// The delay that the next failure will be answered with.
    pub current_interval: nat,
    /// The delays handed out since the sequence began, added up.
    pub elapsed: nat,
}

impl RetryStateView {
    /// What every retry state satisfies: the current interval lies between the
    /// initial interval and the cap, and the cap within `INTERVAL_LIMIT`.
    pub open spec fn wf(self) -> bool {
        &&& self.initial_interval <= self.current_interval
        &&& self.current_interval <= self.max_interval
        &&& self.max_interval <= INTERVAL_LIMIT
        &&& self.elapsed <= u64::MAX
    }

    /// The state that `RetryState::new` builds from two numbers of
    /// milliseconds: an initial interval above the cap is lowered to the cap.
    pub open spec fn fresh(initial_interval_ms: nat, max_interval_ms: nat) -> RetryStateView {
        let initial_ms = if initial_interval_ms <= max_interval_ms {
            initial_interval_ms
        } else {
            max_interval_ms
        };
        RetryStateView {
            initial_interval: initial_ms * 1_000_000,
            max_interval: max_interval_ms * 1_000_000,
            current_interval: initial_ms * 1_000_000,
            elapsed: 0,
        }
    }

    /// The delay before the next attempt, should the current one fail.
    pub open spec fn delay(self) -> nat {
        self.current_interval
    }

    /// The state after one failure: the delay is added to the elapsed time,
    /// which stops at `u64::MAX`, and the interval grows.
    pub open spec fn after_failure(self) -> RetryStateView {
        RetryStateView {
            current_interval: grown(self.current_interval, self.max_interval),
            elapsed: if self.elapsed + self.current_interval <= u64::MAX {
                self.elapsed + self.current_interval
            } else {
                u64::MAX as nat
            },
            ..self
        }
    }

    /// The state after `failures` failures in a row.
    pub open spec fn after_failures(self, failures: nat) -> RetryStateView
        decreases failures,
    {
        if failures == 0 {
            self
        } else {
            self.after_failures((failures - 1) as nat).after_failure()
        }
    }

    /// The state after a success: back at the initial interval, nothing elapsed.
    pub open spec fn after_success(self) -> RetryStateView {
        RetryStateView { current_interval: self.initial_interval, elapsed: 0, ..self }
    }
}

/// The retry state of one runner: the current delay interval and the time
/// spent backing off in the retry sequence under way.
#[derive(Clone, Copy, Debug, PartialEq, Eq)]
pub struct RetryState {
    initial_interval: u64,
    max_interval: u64,
    current_interval: u64,
    elapsed: u64,
}

impl View for RetryState {
    type V = RetryStateView;

    closed spec fn view(&self) -> RetryStateView {
        RetryStateView {
            initial_interval: self.initial_interval as nat,
            max_interval: self.max_interval as nat,
            current_interval: self.current_interval as nat,
            elapsed: self.elapsed as nat,
        }
    }
}

impl RetryState {
    #[verifier::type_invariant]
    spec fn inv(self) -> bool {
        self@.wf()
    }

    /// A retry state at the start of a sequence, from an initial interval and
    /// a maximum interval in milliseconds. An initial interval above the
    /// maximum counts as the maximum.
    pub fn new(initial_interval_ms: u32, max_interval_ms: u32) -> (state: RetryState)
        ensures
            state@ == RetryStateView::fresh(initial_interval_ms as nat, max_interval_ms as nat),
            state@.wf(),
    {
        let initial_ms: u32 = if initial_interval_ms <= max_interval_ms {
            initial_interval_ms
        } else {
            max_interval_ms
        };
        let initial: u64 = initial_ms as u64 * 1_000_000;
        RetryState {
            initial_interval: initial,
            max_interval: max_interval_ms as u64 * 1_000_000,
            current_interval: initial,
            elapsed: 0,
        }
    }

    /// Records a failed attempt and returns the delay, in nanoseconds, to wait
    /// before the next one. The following delay will be the grown interval.
    pub fn next_delay(&mut self) -> (delay: u64)
        ensures
            delay == old(self)@.delay(),
            final(self)@ == old(self)@.after_failure(),
            final(self)@.wf(),
    {
        proof {
            use_type_invariant(&*self);
        }
        let delay: u64 = self.current_interval;
        let next: u64 = next_interval(self.current_interval, self.max_interval);
        self.current_interval = next;
        self.elapsed = self.elapsed.saturating_add(delay);
        delay
    }

    /// Records a success: the next failure starts from the initial interval.
    pub fn reset(&mut self)
        ensures
            final(self)@ == old(self)@.after_success(),
            final(self)@.wf(),
    {
        proof {
            use_type_invariant(&*self);
        }
        self.current_interval = self.initial_interval;
        self.elapsed = 0;
    }

    /// The interval a retry sequence starts from, in nanoseconds.
    pub fn initial_interval(&self) -> (interval: u64)
        ensures
            interval == self@.initial_interval,
    {
        self.initial_interval
    }

    /// The cap on every delay, in nanoseconds.
    pub fn max_interval(&self) -> (interval: u64)
        ensures
            interval == self@.max_interval,
    {
        self.max_interval
    }

    /// The delay that the next failure will be answered with, in nanoseconds.
    pub fn current_interval(&self) -> (interval: u64)
        ensures
            interval == self@.current_interval,
    {
        self.current_interval
    }

    /// The delays handed out since the sequence began, added up, in
    /// nanoseconds.
    pub fn elapsed(&self) -> (total: u64)
        ensures
            total == self@.elapsed,
    {
        self.elapsed
    }
}

/// A failure leaves a retry state well formed and its two bounds as they
/// were. The delay after it is no shorter than the delay before it, and no
/// delay is longer than the maximum.
pub proof fn lemma_failure_never_shortens_delay(s: RetryStateView)
    requires
        s.wf(),
    ensures
        s.after_failure().wf(),
        s.after_failure().initial_interval == s.initial_interval,
        s.after_failure().max_interval == s.max_interval,
        s.delay() <= s.after_failure().delay() <= s.max_interval,
{
}

/// However many attempts fail in a row, the delays never decrease and never
/// exceed the maximum: the delay after `earlier` failures is at most the
/// delay after `later` failures, which is at most the maximum.
pub proof fn lemma_delays_never_decrease(s: RetryStateView, earlier: nat, later: nat)
    requires
        s.wf(),
        earlier <= later,
    ensures
        s.after_failures(later).wf(),
        s.after_failures(later).initial_interval == s.initial_interval,
        s.after_failures(later).max_interval == s.max_interval,
        s.after_failures(earlier).delay() <= s.after_failures(later).delay() <= s.max_interval,
    decreases later,
{
    if later > 0 {
        let before = (later - 1) as nat;
        if earlier < later {
            lemma_delays_never_decrease(s, earlier, before);
        } else {
            lemma_delays_never_decrease(s, before, before);
        }
        lemma_failure_never_shortens_delay(s.after_failures(before));
    }
}

/// The delay grows up to the maximum: a delay of at least two nanoseconds
/// that is below the maximum is followed by a longer one, and a delay at the
/// maximum by the maximum again.
pub proof fn lemma_delay_grows_up_to_max(s: RetryStateView)
    requires
        s.wf(),
    ensures
        2 <= s.delay() < s.max_interval ==> s.delay() < s.after_failure().delay(),
        s.delay() == s.max_interval ==> s.after_failure().delay() == s.max_interval,
{
}

/// The maximum is reached: from a delay of at least two nanoseconds, it takes
/// no more failures than there are nanoseconds between that delay and the
/// maximum, and every later delay is the maximum too.
pub proof fn lemma_delay_reaches_max(s: RetryStateView, failures: nat)
    requires
        s.wf(),
        2 <= s.delay(),
        s.max_interval - s.delay() <= failures,
    ensures
        s.after_failures(failures).delay() == s.max_interval,
{
    lemma_delay_gains_on_max(s, failures);
}

proof fn lemma_delay_gains_on_max(s: RetryStateView, failures: nat)
    requires
        s.wf(),
        2 <= s.delay(),
    ensures
        s.after_failures(failures).wf(),
        s.after_failures(failures).max_interval == s.max_interval,
        2 <= s.after_failures(failures).delay(),
        s.after_failures(failures).delay() == s.max_interval || s.delay() + failures
            <= s.after_failures(failures).delay(),
    decreases failures,
{
    if failures > 0 {
        let before = (failures - 1) as nat;
        lemma_delay_gains_on_max(s, before);
        lemma_delay_grows_up_to_max(s.after_failures(before));
    }
}

/// A success takes the delay back to the initial interval, whatever it had
/// grown to, and a state fresh from `RetryState::new` is in that position.
pub proof fn lemma_success_restores_initial_delay(s: RetryStateView)
    requires
        s.wf(),
    ensures
        s.after_success().wf(),
        s.after_success().delay() == s.initial_interval,
        s.after_success().elapsed == 0,
        s.after_success().after_success() == s.after_success(),
{
}

} // verus!
