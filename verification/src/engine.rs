//! The stream engine: pure, stateless arithmetic over a record and a
//! timestamp. It computes the vested amount, the withdrawable amount, and the
//! receiver's entitlement at close, with every operation checked — overflow is
//! reported, never wrapped.

use vstd::prelude::*;
use vstd::math::min;
use vstd::arithmetic::mul::lemma_mul_inequality;

use crate::state::{StreamData, StreamError};

verus! {

/// The amount vested by time `now`: nothing before `start_time`, and
/// `rate * (min(now, end_time) - start_time)` from then on. On a well-formed
/// record the value is non-negative; it may exceed `u64::MAX`, which the
/// executable engine reports as an overflow.
pub open spec fn spec_vested(r: StreamData, now: int) -> int {
    if now < r.start_time {
        0
    } else {
        r.amount_second * (min(now, r.end_time as int) - r.start_time)
    }
}

/// The vested amount not yet paid out. Negative exactly when the record
/// claims more withdrawn than ever vested — a prior invariant violation.
pub open spec fn spec_withdrawable(r: StreamData, now: int) -> int {
    spec_vested(r, now) - r.lamports_withdrawn
}

/// The receiver's entitlement at close: the withdrawable amount once the
/// stream has started, nothing before.
pub open spec fn spec_settle_to_receiver(r: StreamData, now: int) -> int {
    if now > r.start_time {
        spec_withdrawable(r, now)
    } else {
        0
    }
}

/// Vesting never runs backwards: later observation, at least as much vested.
pub proof fn lemma_vested_monotonic(r: StreamData, t1: int, t2: int)
    requires
        r.wf(),
        t1 <= t2,
    ensures
        spec_vested(r, t1) <= spec_vested(r, t2),
{
    if t1 < r.start_time {
        if t2 >= r.start_time {
            assert(min(t2, r.end_time as int) - r.start_time >= 0);
            lemma_mul_inequality(0, min(t2, r.end_time as int) - r.start_time, r.amount_second as int);
        }
    } else {
        let d1 = min(t1, r.end_time as int) - r.start_time;
        let d2 = min(t2, r.end_time as int) - r.start_time;
        assert(d1 <= d2);
        lemma_mul_inequality(d1, d2, r.amount_second as int);
        assert(d1 * r.amount_second == r.amount_second * d1) by (nonlinear_arith);
        assert(d2 * r.amount_second == r.amount_second * d2) by (nonlinear_arith);
    }
}

/// Vesting caps at the end of the stream: from `end_time` on, exactly the
/// full deposit `rate * (end_time - start_time)` has vested.
pub proof fn lemma_vested_cap(r: StreamData, t: int)
    requires
        r.wf(),
        t >= r.end_time,
    ensures
        spec_vested(r, t) == r.amount_second * (r.end_time - r.start_time),
{
}

/// Nothing vests before the stream starts.
pub proof fn lemma_no_early_vesting(r: StreamData, t: int)
    requires
        t < r.start_time,
    ensures
        spec_vested(r, t) == 0,
{
}

/// On a well-formed record the vested amount is never negative.
pub proof fn lemma_vested_nonnegative(r: StreamData, t: int)
    requires
        r.wf(),
    ensures
        spec_vested(r, t) >= 0,
{
    if t >= r.start_time {
        assert(min(t, r.end_time as int) - r.start_time >= 0);
        lemma_mul_inequality(0, min(t, r.end_time as int) - r.start_time, r.amount_second as int);
    }
}

/// Draining the withdrawable amount leaves nothing withdrawable: after the
/// cumulative-withdrawn field grows by exactly `withdrawable(r, now)`, the
/// withdrawable amount at the same time is zero, so any further nonzero
/// request exceeds it.
pub proof fn lemma_repeated_max_withdraw(r: StreamData, now: int, r2: StreamData)
    requires
        0 <= spec_withdrawable(r, now),
        r2 == (StreamData {
            lamports_withdrawn: (r.lamports_withdrawn + spec_withdrawable(r, now)) as u64,
            ..r
        }),
        r.lamports_withdrawn + spec_withdrawable(r, now) <= u64::MAX,
    ensures
        spec_withdrawable(r2, now) == 0,
{
}

/// Computes the vested amount at `now`. Returns `ArithmeticOverflow` exactly
/// when the mathematical value leaves the `u64` range (in particular when a
/// malformed record makes the vesting window negative).
pub fn vested(r: &StreamData, now: i64) -> (res: Result<u64, StreamError>)
    ensures
        match res {
            Ok(v) => v == spec_vested(*r, now as int)
                && 0 <= spec_vested(*r, now as int) <= u64::MAX,
            Err(e) => e == StreamError::ArithmeticOverflow
                && !(0 <= spec_vested(*r, now as int) <= u64::MAX),
        },
{
    if now < r.start_time {
        return Ok(0);
    }
    let capped: i64 = if now < r.end_time {
        now
    } else {
        r.end_time
    };
    if capped < r.start_time {
        // Only reachable on a malformed record whose end precedes its start.
        proof {
            let d = min(now as int, r.end_time as int) - r.start_time;
            assert(d < 0);
            assert(r.amount_second * d <= 0) by (nonlinear_arith)
                requires d < 0, r.amount_second >= 0;
            if r.amount_second == 0 {
                assert(r.amount_second * d == 0) by (nonlinear_arith)
                    requires r.amount_second == 0;
            } else {
                assert(r.amount_second * d < 0) by (nonlinear_arith)
                    requires d < 0, r.amount_second > 0;
            }
        }
        if r.amount_second == 0 {
            return Ok(0);
        }
        return Err(StreamError::ArithmeticOverflow);
    }
    let duration_i: i128 = capped as i128 - r.start_time as i128;
    let duration: u64 = duration_i as u64;
    match r.amount_second.checked_mul(duration) {
        Some(v) => Ok(v),
        None => Err(StreamError::ArithmeticOverflow),
    }
}

/// Computes the vested-but-unclaimed amount at `now`. Reports
/// `InvariantViolation` exactly when the record claims more withdrawn than
/// vested, and propagates the vesting overflow otherwise.
pub fn withdrawable(r: &StreamData, now: i64) -> (res: Result<u64, StreamError>)
    ensures
        match res {
            Ok(v) => v == spec_withdrawable(*r, now as int)
                && 0 <= spec_vested(*r, now as int) <= u64::MAX,
            Err(e) => !(0 <= spec_withdrawable(*r, now as int)
                && 0 <= spec_vested(*r, now as int) <= u64::MAX) && if !(0 <= spec_vested(
                *r,
                now as int,
            ) <= u64::MAX) {
                e == StreamError::ArithmeticOverflow
            } else {
                e == StreamError::InvariantViolation
            },
        },
{
    let v = vested(r, now)?;
    if r.lamports_withdrawn > v {
        return Err(StreamError::InvariantViolation);
    }
    Ok(v - r.lamports_withdrawn)
}

/// Computes the receiver's entitlement at close: the withdrawable amount if
/// the stream has started (strictly), zero otherwise. Errors as
/// `withdrawable` does.
pub fn settle_on_close(r: &StreamData, now: i64) -> (res: Result<u64, StreamError>)
    ensures
        match res {
            Ok(v) => v == spec_settle_to_receiver(*r, now as int) && (now > r.start_time ==> (0
                <= spec_withdrawable(*r, now as int) && 0 <= spec_vested(*r, now as int)
                <= u64::MAX)),
            Err(e) => now > r.start_time && !(0 <= spec_withdrawable(*r, now as int) && 0
                <= spec_vested(*r, now as int) <= u64::MAX) && if !(0 <= spec_vested(
                *r,
                now as int,
            ) <= u64::MAX) {
                e == StreamError::ArithmeticOverflow
            } else {
                e == StreamError::InvariantViolation
            },
        },
{
    if now > r.start_time {
        withdrawable(r, now)
    } else {
        Ok(0)
    }
}

} // verus!
