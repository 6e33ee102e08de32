//! Reconnect delays: exponential backoff with a cap.

use vstd::arithmetic::power2::{lemma_pow2_pos, lemma_pow2_unfold, pow2};
use vstd::prelude::*;

verus! {

/// The delay that follows `delay` in the schedule: `min(2 * delay, max)`.
pub open spec fn doubled_capped(delay: int, max: int) -> int {
    if 2 * delay <= max {
        2 * delay
    } else {
        max
    }
}

/// The mathematical content of a [`Backoff`].
pub struct BackoffView {
    /// The configured first delay.
    pub base: int,
    /// The configured cap.
    pub max: int,
    /// The delay that the next failed attempt will wait.
    pub pending: int,
}

impl BackoffView {
    /// The schedule before any attempt.
    pub open spec fn start(base: int, max: int) -> BackoffView {
        BackoffView { base, max, pending: base }
    }

    /// The delay waited after an attempt that ended cleanly (`clean`) or failed.
    pub open spec fn wait(self, clean: bool) -> int {
        if clean {
            self.base
        } else {
            self.pending
        }
    }

    /// The schedule after an attempt and the wait that follows it.
    pub open spec fn after(self, clean: bool) -> BackoffView {
        BackoffView { pending: doubled_capped(self.wait(clean), self.max), ..self }
    }

    /// The schedule after `n` consecutive failed attempts.
    pub open spec fn after_failures(self, n: nat) -> BackoffView
        decreases n,
    {
        if n == 0 {
            self
        } else {
            self.after_failures((n - 1) as nat).after(false)
        }
    }
}

/// The state of a reconnect loop: how long to wait before the next attempt.
#[derive(Clone, Copy, Debug)]
pub struct Backoff {
    base_ms: u64,
    max_ms: u64,
    pending_ms: u64,
}

impl View for Backoff {
    type V = BackoffView;

    closed spec fn view(&self) -> BackoffView {
        BackoffView {
            base: self.base_ms as int,
            max: self.max_ms as int,
            pending: self.pending_ms as int,
        }
    }
}

impl Backoff {
    /// A schedule that starts at `base_ms` and never exceeds `max_ms` after the
    /// first wait.
    pub fn new(base_ms: u64, max_ms: u64) -> (backoff: Backoff)
        ensures
            backoff@ == BackoffView::start(base_ms as int, max_ms as int),
    {
        Backoff { base_ms, max_ms, pending_ms: base_ms }
    }

    /// The delay that a failed attempt would wait now.
    pub fn pending_ms(&self) -> (delay: u64)
        ensures
            delay == self@.pending,
    {
        self.pending_ms
    }

    /// Records the end of one connection attempt and returns the number of
    /// milliseconds to wait before the next one.
    ///
    /// A clean close resets the schedule to the base delay first. The delay
    /// after the returned one is twice as long, capped at the maximum.
    pub fn next_delay(&mut self, clean: bool) -> (delay: u64)
        ensures
            delay == old(self)@.wait(clean),
            final(self)@ == old(self)@.after(clean),
    {
        let delay: u64 = if clean {
            self.base_ms
        } else {
            self.pending_ms
        };
        self.pending_ms = if delay <= self.max_ms / 2 {
            delay * 2
        } else {
            self.max_ms
        };
        delay
    }
}

/// Once the pending delay is within the cap it stays within it, and from then
/// on every wait is within the cap too.
pub proof fn lemma_capped(schedule: BackoffView, clean: bool)
    requires
        0 <= schedule.base <= schedule.max,
        0 <= schedule.pending,
    ensures
        0 <= schedule.after(clean).pending <= schedule.max,
        schedule.after(clean).base == schedule.base,
        schedule.after(clean).max == schedule.max,
{
}

/// Backoff growth: in a run of consecutive failed attempts that starts from
/// the base delay `base` with the cap `max`, the `k`-th retry waits
/// `min(base * 2^(k-1), max)`.
///
/// The first wait is the base delay itself, so for `k = 1` this holds only of
/// a base that is within the cap.
pub proof fn lemma_kth_retry_delay(base: nat, max: nat, k: nat)
    requires
        k >= 1,
        base <= max || k >= 2,
    ensures
        BackoffView::start(base as int, max as int).after_failures((k - 1) as nat).wait(false) == (
        if base * pow2((k - 1) as nat) <= max {
            (base * pow2((k - 1) as nat)) as int
        } else {
            max as int
        }),
    decreases k,
{
    let start = BackoffView::start(base as int, max as int);
    lemma_failures_keep_settings(start, (k - 1) as nat);
    assert(pow2(0) == 1 && pow2(1) == 2) by {
        vstd::arithmetic::power2::lemma2_to64();
    }
    if k == 1 {
        assert(base * 1 == base);
    } else if k == 2 {
        assert(start.after_failures(1) == start.after_failures(0).after(false));
        assert(base * 2 == 2 * base);
    } else {
        let j = (k - 1) as nat;
        lemma_kth_retry_delay(base, max, j);
        lemma_failures_keep_settings(start, (j - 1) as nat);
        let before = start.after_failures((j - 1) as nat);
        let prev = pow2((j - 1) as nat) as int;
        lemma_pow2_unfold(j);
        lemma_pow2_pos((j - 1) as nat);
        assert(pow2(j) == 2 * prev);
        assert(base * (2 * prev) == 2 * (base * prev)) by (nonlinear_arith);
        assert(start.after_failures(j) == before.after(false));
        if base * prev > max {
            assert(base * (2 * prev) > max) by (nonlinear_arith)
                requires
                    base * prev > max,
                    prev >= 1,
                    base >= 0,
            ;
        }
    }
}

proof fn lemma_failures_keep_settings(schedule: BackoffView, n: nat)
    ensures
        schedule.after_failures(n).base == schedule.base,
        schedule.after_failures(n).max == schedule.max,
    decreases n,
{
    if n > 0 {
        lemma_failures_keep_settings(schedule, (n - 1) as nat);
    }
}

/// A single clean close resets the schedule: the wait that follows it is the
/// base delay, whatever failures came before.
pub proof fn lemma_success_resets(schedule: BackoffView)
    ensures
        schedule.wait(true) == schedule.base,
        schedule.after(true).pending == doubled_capped(schedule.base, schedule.max),
{
}

} // verus!
