//! Tests for the rate gate.

use immich_lib::gate::RateGate;

#[test]
fn test_first_call_goes_through_immediately() {
    let mut gate = RateGate::new(10, 5);
    let wait = gate.acquire_token_at(0);
    assert_eq!(wait, 0);
}

#[test]
fn test_rate_gate_paces_back_to_back_calls() {
    // Scenario: requests_per_sec = 10, twenty-five rate-gated calls issued
    // back-to-back. The last call is granted no earlier than 2.4 seconds
    // after the first, so the batch takes at least 2 seconds of elapsed time.
    let mut gate = RateGate::new(10, 5);
    let mut now: u64 = 0;
    let mut last_grant: u64 = 0;
    for _ in 0..25 {
        let wait = gate.acquire_token_at(now);
        last_grant = now + wait;
        // back-to-back: the next call arrives the moment this one is granted
        now = last_grant;
    }
    assert!(last_grant >= 2_000_000_000, "25 calls at 10/s must span at least 2 s");
    assert_eq!(last_grant, 2_400_000_000);
}

#[test]
fn test_rate_gate_zero_rate_falls_back_to_default() {
    let mut gate = RateGate::new(0, 5);
    let mut now: u64 = 0;
    for _ in 0..11 {
        let wait = gate.acquire_token_at(now);
        now += wait;
    }
    // eleven calls at the default ten per second span one second
    assert_eq!(now, 1_000_000_000);
}

#[test]
fn test_idle_gate_grants_immediately() {
    let mut gate = RateGate::new(10, 5);
    let w1 = gate.acquire_token_at(0);
    assert_eq!(w1, 0);
    // a call arriving well after the refill interval waits nothing
    let w2 = gate.acquire_token_at(500_000_000);
    assert_eq!(w2, 0);
}

#[test]
fn test_concurrency_permits_capped() {
    let mut gate = RateGate::new(10, 2);
    assert!(gate.try_acquire_permit());
    assert!(gate.try_acquire_permit());
    assert!(!gate.try_acquire_permit());
    gate.release_permit();
    assert!(gate.try_acquire_permit());
}
