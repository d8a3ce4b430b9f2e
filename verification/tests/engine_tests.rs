use stream_escrow::engine::{settle_on_close, vested, withdrawable};
use stream_escrow::state::{Pubkey, StreamData, StreamError};

fn key(n: u128) -> Pubkey {
    Pubkey { lo: n, hi: 0 }
}

fn record(start: i64, end: i64, rate: u64, withdrawn: u64) -> StreamData {
    StreamData {
        start_time: start,
        end_time: end,
        receiver: key(1),
        lamports_withdrawn: withdrawn,
        amount_second: rate,
        sender: key(2),
    }
}

#[test]
fn vested_is_zero_before_start() {
    let r = record(1000, 2000, 5, 0);
    assert_eq!(vested(&r, 999), Ok(0));
    assert_eq!(vested(&r, -100), Ok(0));
    assert_eq!(vested(&r, i64::MIN), Ok(0));
}

#[test]
fn vested_grows_linearly_and_monotonically() {
    let r = record(1000, 2000, 5, 0);
    assert_eq!(vested(&r, 1000), Ok(0));
    assert_eq!(vested(&r, 1001), Ok(5));
    assert_eq!(vested(&r, 1500), Ok(2500));
    let mut previous = 0u64;
    for t in [900i64, 1000, 1100, 1500, 1999, 2000, 2001, 5000] {
        let v = vested(&r, t).unwrap();
        assert!(v >= previous);
        previous = v;
    }
}

#[test]
fn vested_caps_at_end_time() {
    let r = record(1000, 2000, 5, 0);
    assert_eq!(vested(&r, 2000), Ok(5000));
    assert_eq!(vested(&r, 2001), Ok(5000));
    assert_eq!(vested(&r, i64::MAX), Ok(5000));
}

#[test]
fn vested_reports_overflow() {
    let r = record(0, i64::MAX, u64::MAX, 0);
    assert_eq!(vested(&r, 1000), Err(StreamError::ArithmeticOverflow));
}

#[test]
fn withdrawable_subtracts_withdrawn() {
    let r = record(1000, 2000, 5, 2000);
    assert_eq!(withdrawable(&r, 1500), Ok(500));
    assert_eq!(withdrawable(&r, 2000), Ok(3000));
}

#[test]
fn withdrawable_reports_invariant_violation() {
    let r = record(1000, 2000, 5, 3000);
    assert_eq!(withdrawable(&r, 1500), Err(StreamError::InvariantViolation));
    let zero_rate = record(1000, 2000, 0, 1);
    assert_eq!(
        withdrawable(&zero_rate, 1500),
        Err(StreamError::InvariantViolation)
    );
}

#[test]
fn repeated_max_withdraw_leaves_nothing() {
    let r = record(1000, 2000, 5, 0);
    let first = withdrawable(&r, 1500).unwrap();
    assert_eq!(first, 2500);
    let drained = record(1000, 2000, 5, first);
    assert_eq!(withdrawable(&drained, 1500), Ok(0));
}

#[test]
fn settle_pays_withdrawable_once_started() {
    let r = record(1000, 2000, 5, 2000);
    assert_eq!(settle_on_close(&r, 1500), Ok(500));
    assert_eq!(settle_on_close(&r, 2500), Ok(3000));
}

#[test]
fn settle_pays_nothing_before_start() {
    let r = record(1000, 2000, 5, 0);
    assert_eq!(settle_on_close(&r, 1000), Ok(0));
    assert_eq!(settle_on_close(&r, 500), Ok(0));
}
