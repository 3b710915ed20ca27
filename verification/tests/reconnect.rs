use agentx::reconnect::{backoff, backoff_millis, ConnectOutcome, ReconnectPlan, ReconnectState};
use std::time::Duration;

fn failed(status: Option<u16>) -> ConnectOutcome {
    ConnectOutcome::Failed { http_status: status }
}

#[test]
fn failures_double_the_delay_up_to_the_cap() {
    let mut state = ReconnectState::new();
    let mut sleeps = Vec::new();
    for _ in 0..8 {
        sleeps.push(state.on_outcome(failed(None)).sleep_secs);
    }
    assert_eq!(sleeps, vec![1, 2, 4, 8, 16, 30, 30, 30]);
    assert_eq!(state.backoff_secs(), 30);
}

#[test]
fn connection_resets_the_delay() {
    let mut state = ReconnectState::new();
    state.on_outcome(failed(None));
    state.on_outcome(failed(None));
    assert_eq!(state.backoff_secs(), 4);
    let plan = state.on_outcome(ConnectOutcome::Connected);
    assert_eq!(plan, ReconnectPlan { serve: true, reregister: false, sleep_secs: 1 });
    assert_eq!(state.backoff_secs(), 2);
}

#[test]
fn client_error_upgrade_means_reregistration() {
    let mut state = ReconnectState::new();
    assert!(state.on_outcome(failed(Some(401))).reregister);
    assert!(state.on_outcome(failed(Some(499))).reregister);
    assert!(!state.on_outcome(failed(Some(500))).reregister);
    assert!(!state.on_outcome(failed(Some(302))).reregister);
    assert!(!state.on_outcome(failed(None)).reregister);
}

#[test]
fn backoff_is_exponential_and_saturates() {
    assert_eq!(backoff_millis(0), 100);
    assert_eq!(backoff_millis(3), 800);
    assert_eq!(backoff_millis(16), 6_553_600);
    assert_eq!(backoff_millis(17), 13_107_200);
    assert_eq!(backoff_millis(57), 100 * (1u64 << 57));
    assert_eq!(backoff_millis(58), u64::MAX);
    assert_eq!(backoff_millis(u64::MAX), u64::MAX);
    assert_eq!(backoff(3), Duration::from_millis(800));
    assert_eq!(backoff(17), Duration::from_millis(13_107_200));
    assert_eq!(backoff(40), Duration::from_millis(100 * (1u64 << 40)));
}
