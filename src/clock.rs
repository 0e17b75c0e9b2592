//! Time arithmetic of the ledger. Instants are nanoseconds on the host's clock;
//! durations shown to callers are whole seconds.
use vstd::prelude::*;

verus! {

/// Number of nanoseconds in one second.
pub const NANOS_PER_SECOND: u64 = 1_000_000_000;

/// The closing instant of an auction created at `now` that stays open for
/// `duration_seconds`; an instant beyond the clock's range is held at its end.
pub open spec fn closing_instant(now: u64, duration_seconds: u64) -> int {
    let c = now + duration_seconds * NANOS_PER_SECOND;
    if c > u64::MAX {
        u64::MAX as int
    } else {
        c
    }
}

/// Whole seconds left until `closing`, rounded up, and zero once `now` has
/// reached `closing`: an auction is closed exactly when this is zero.
pub open spec fn remaining_seconds(closing: int, now: int) -> nat {
    if now < closing {
        ((closing - now + NANOS_PER_SECOND - 1) / NANOS_PER_SECOND as int) as nat
    } else {
        0
    }
}

/// Computes the closing instant of an auction created at `now`.
pub fn closing_time(now: u64, duration_seconds: u64) -> (r: u64)
    ensures
        r == closing_instant(now, duration_seconds),
{
    let span: u64 = if duration_seconds > u64::MAX / NANOS_PER_SECOND {
        u64::MAX
    } else {
        assert(duration_seconds * NANOS_PER_SECOND <= u64::MAX) by (nonlinear_arith)
            requires
                duration_seconds <= u64::MAX / NANOS_PER_SECOND,
        ;
        duration_seconds * NANOS_PER_SECOND
    };
    assert(duration_seconds > u64::MAX / NANOS_PER_SECOND ==> duration_seconds * NANOS_PER_SECOND
        > u64::MAX) by (nonlinear_arith);
    let r = now.saturating_add(span);
    assert(r == closing_instant(now, duration_seconds)) by (nonlinear_arith)
        requires
            span == (if duration_seconds * NANOS_PER_SECOND > u64::MAX { u64::MAX as int } else {
                duration_seconds * NANOS_PER_SECOND }),
            r == (if now + span > u64::MAX { u64::MAX as int } else { now + span }),
    ;
    r
}

/// Whole seconds left until `closing` at the instant `now` (zero once closed).
pub fn remaining_time(closing: u64, now: u64) -> (r: u64)
    ensures
        r == remaining_seconds(closing as int, now as int),
{
    if now < closing {
        let span = closing - now;
        let whole = span / NANOS_PER_SECOND;
        if span % NANOS_PER_SECOND == 0 {
            assert(whole == remaining_seconds(closing as int, now as int)) by (nonlinear_arith)
                requires
                    span as int == closing - now,
                    span > 0,
                    whole as int == span as int / NANOS_PER_SECOND as int,
                    span as int % NANOS_PER_SECOND as int == 0,
            ;
            whole
        } else {
            assert(whole + 1 == remaining_seconds(closing as int, now as int)) by (nonlinear_arith)
                requires
                    span as int == closing - now,
                    span > 0,
                    whole as int == span as int / NANOS_PER_SECOND as int,
                    span as int % NANOS_PER_SECOND as int != 0,
            ;
            whole + 1
        }
    } else {
        0
    }
}

/// One second of a countdown: a positive remaining time drops by one, zero stays zero.
pub open spec fn count_down(r: nat) -> nat {
    if r > 0 {
        (r - 1) as nat
    } else {
        0
    }
}

/// Advances a table of remaining times by one second, as a once-per-second
/// timer does: every entry above zero drops by one, every zero entry stays.
pub fn tick(remaining: &mut Vec<u64>)
    ensures
        final(remaining)@.len() == old(remaining)@.len(),
        forall|i: int|
            0 <= i < old(remaining)@.len() ==> final(remaining)@[i] as nat == count_down(
                old(remaining)@[i] as nat,
            ),
{
    let n = remaining.len();
    let mut i: usize = 0;
    while i < n
        invariant
            n == old(remaining)@.len(),
            remaining@.len() == n,
            i <= n,
            forall|j: int| 0 <= j < i ==> remaining@[j] as nat == count_down(old(remaining)@[j] as nat),
            forall|j: int| i <= j < n ==> remaining@[j] == old(remaining)@[j],
        decreases n - i,
    {
        let r = remaining[i];
        if r > 0 {
            remaining.set(i, r - 1);
        }
        i = i + 1;
    }
}

/// The remaining time never grows as the clock advances, and never drops below zero.
pub proof fn lemma_remaining_time_non_increasing(closing: int, earlier: int, later: int)
    requires
        earlier <= later,
    ensures
        remaining_seconds(closing, later) <= remaining_seconds(closing, earlier),
        remaining_seconds(closing, later) >= 0,
{
    if later < closing {
        let a = closing - later + NANOS_PER_SECOND - 1;
        let b = closing - earlier + NANOS_PER_SECOND - 1;
        assert(a / NANOS_PER_SECOND as int <= b / NANOS_PER_SECOND as int) by (nonlinear_arith)
            requires
                0 <= a <= b,
        ;
    }
}

/// A once-per-second countdown of the remaining time agrees with recomputing
/// it from the clock: one second later the remaining time is the count-down of
/// the remaining time now.
pub proof fn lemma_tick_is_one_second(closing: int, now: int)
    ensures
        remaining_seconds(closing, now + NANOS_PER_SECOND) == count_down(
            remaining_seconds(closing, now),
        ),
{
    let n = NANOS_PER_SECOND as int;
    if now < closing {
        let d = closing - now;
        assert((d - n + n - 1) / n == (d + n - 1) / n - 1) by (nonlinear_arith)
            requires
                n == 1_000_000_000,
        ;
        assert(d <= n ==> (d + n - 1) / n == 1) by (nonlinear_arith)
            requires
                n == 1_000_000_000,
                d > 0,
        ;
        assert(d > n ==> (d + n - 1) / n >= 2) by (nonlinear_arith)
            requires
                n == 1_000_000_000,
        ;
    }
}

} // verus!
