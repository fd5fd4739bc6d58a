use onvif_cam_rs::client::discovery::{
    split_scopes, DiscoveryAction, DiscoveryProgress, SeenAddresses, PROBE_ROUNDS,
    RECEIVES_PER_PROBE,
};
use onvif_cam_rs::client::retry::{next_send_step, AttemptOutcome, SendStep, MAX_RETRIES};

#[test]
fn a_response_is_returned_at_once() {
    for attempt in 1..=MAX_RETRIES {
        assert_eq!(next_send_step(attempt, AttemptOutcome::Delivered), SendStep::ReturnResponse);
    }
}

#[test]
fn failures_are_retried_until_the_last_attempt() {
    for attempt in 1..MAX_RETRIES {
        assert_eq!(next_send_step(attempt, AttemptOutcome::Failed), SendStep::RetryAfterBackoff);
        assert_eq!(next_send_step(attempt, AttemptOutcome::TimedOut), SendStep::RetryAfterBackoff);
    }
    assert_eq!(next_send_step(MAX_RETRIES, AttemptOutcome::Failed), SendStep::GiveUp);
    assert_eq!(next_send_step(MAX_RETRIES, AttemptOutcome::TimedOut), SendStep::GiveUp);
}

#[test]
fn send_makes_at_most_five_attempts() {
    let mut attempt = 1;
    let mut pauses = 0;
    loop {
        match next_send_step(attempt, AttemptOutcome::TimedOut) {
            SendStep::RetryAfterBackoff => {
                pauses += 1;
                attempt += 1;
            }
            SendStep::GiveUp => break,
            SendStep::ReturnResponse => unreachable!(),
        }
    }
    assert_eq!(attempt, 5);
    assert_eq!(pauses, 4);
}

#[test]
fn discovery_probes_twice_and_listens_five_times_after_each() {
    let mut progress = DiscoveryProgress::new();
    let mut actions = Vec::new();
    loop {
        let action = progress.next_action();
        actions.push(action);
        match action {
            DiscoveryAction::SendProbe => progress.record_probe(),
            DiscoveryAction::Receive => progress.record_receive(),
            DiscoveryAction::Finish => break,
        }
    }
    assert_eq!(
        actions,
        vec![
            DiscoveryAction::SendProbe,
            DiscoveryAction::Receive,
            DiscoveryAction::Receive,
            DiscoveryAction::Receive,
            DiscoveryAction::Receive,
            DiscoveryAction::Receive,
            DiscoveryAction::SendProbe,
            DiscoveryAction::Receive,
            DiscoveryAction::Receive,
            DiscoveryAction::Receive,
            DiscoveryAction::Receive,
            DiscoveryAction::Receive,
            DiscoveryAction::Finish,
        ]
    );
    assert_eq!(PROBE_ROUNDS, 2);
    assert_eq!(RECEIVES_PER_PROBE, 5);
}

#[test]
fn a_remembered_address_is_seen() {
    let mut seen = SeenAddresses::new();
    assert!(!seen.contains("192.168.1.10:3702"));
    seen.remember("192.168.1.10:3702");
    assert!(seen.contains("192.168.1.10:3702"));
    assert!(!seen.contains("192.168.1.11:3702"));
    seen.remember("192.168.1.11:3702");
    assert!(seen.contains("192.168.1.10:3702"));
    assert!(seen.contains("192.168.1.11:3702"));
}

#[test]
fn addresses_are_compared_whole() {
    let mut seen = SeenAddresses::new();
    seen.remember("110.0.0.1:3702");
    assert!(!seen.contains("10.0.0.1:3702"));
    assert!(!seen.contains("110.0.0.1:370"));
    assert!(!seen.contains(""));
    assert!(seen.contains("110.0.0.1:3702"));
}

#[test]
fn scopes_split_at_every_space() {
    assert_eq!(
        split_scopes("onvif://www.onvif.org/type/video onvif://www.onvif.org/name/cam"),
        vec!["onvif://www.onvif.org/type/video", "onvif://www.onvif.org/name/cam"]
    );
    assert_eq!(split_scopes(""), vec![""]);
    assert_eq!(split_scopes("a  b"), vec!["a", "", "b"]);
    assert_eq!(split_scopes(" a "), vec!["", "a", ""]);
}
