use ipc_bridge::connector::{Connector, Decision, HANDSHAKE_RETRIES, RETRY_INTERVAL_MS};

fn waits_until_given_up(mut connector: Connector) -> Vec<u64> {
    let mut waits = Vec::new();
    loop {
        match connector.refused() {
            Decision::RetryAfter { millis } => waits.push(millis),
            Decision::GiveUp => return waits,
        }
    }
}

#[test]
fn policy_constants() {
    assert_eq!(HANDSHAKE_RETRIES, 300);
    assert_eq!(RETRY_INTERVAL_MS, 10);
}

#[test]
fn handshake_allows_three_hundred_retries() {
    assert_eq!(Connector::handshake(), Connector { retries_left: 300, interval_ms: 10 });
}

#[test]
fn single_attempt_allows_no_retry() {
    let mut connector = Connector::single_attempt();
    assert_eq!(connector, Connector { retries_left: 0, interval_ms: 10 });
    assert_eq!(connector.refused(), Decision::GiveUp);
    assert_eq!(connector.refused(), Decision::GiveUp);
}

#[test]
fn refusal_uses_up_one_retry() {
    let mut connector = Connector::new(2, 25);
    assert_eq!(connector.refused(), Decision::RetryAfter { millis: 25 });
    assert_eq!(connector, Connector { retries_left: 1, interval_ms: 25 });
    assert_eq!(connector.refused(), Decision::RetryAfter { millis: 25 });
    assert_eq!(connector, Connector { retries_left: 0, interval_ms: 25 });
    assert_eq!(connector.refused(), Decision::GiveUp);
    assert_eq!(connector, Connector { retries_left: 0, interval_ms: 25 });
}

#[test]
fn connect_retry_bound() {
    for (retries, interval) in [(0u32, 10u64), (1, 10), (3, 7), (300, 10), (5, 0), (1000, 250)] {
        let waits = waits_until_given_up(Connector::new(retries, interval));
        assert_eq!(waits.len(), retries as usize);
        assert!(waits.iter().all(|wait| *wait == interval));
        assert_eq!(waits.iter().sum::<u64>(), retries as u64 * interval);
    }
}

#[test]
fn handshake_waits_three_seconds_at_most() {
    let waits = waits_until_given_up(Connector::handshake());
    assert_eq!(waits.iter().sum::<u64>(), 3000);
}
