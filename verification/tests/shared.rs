use mylaps_x2::bridge::Notification;
use mylaps_x2::descriptor::{ApplianceDescriptor, ApplianceType, APPLIANCE_TYPE_X2_SERVER};
use mylaps_x2::error::FatalError;
use mylaps_x2::shared::{notify_shared, Reading, SharedSession};
use mylaps_x2::verification::{LoopAction, LoopEvent, LoopState, Transition};

fn notification(hostname: &str) -> Notification {
    Notification {
        hostname: Some(String::from(hostname)),
        verified: true,
        descriptor: Some(ApplianceDescriptor {
            mac: [1, 2, 3, 4, 5, 6],
            build_number: 7,
            release_name: b"R\0".to_vec(),
            system_setup: b"S\0".to_vec(),
            timezone_id: b"UTC\0".to_vec(),
            appliance_type: APPLIANCE_TYPE_X2_SERVER,
        }),
    }
}

#[test]
fn shared_session_starts_open() {
    let shared = SharedSession::create(String::from("h"), 500, 10_000);
    assert_eq!(shared.deadline(), 10_500);
    assert_eq!(shared.read(), Reading { completed: false, result: None });
}

#[test]
fn shared_session_keeps_the_first_notification() {
    let shared = SharedSession::create(String::from("h"), 0, 10_000);
    assert_eq!(notify_shared(Some(&shared), notification("first")), Ok(true));
    assert_eq!(notify_shared(Some(&shared), notification("second")), Ok(false));
    let seen = shared.read();
    assert!(seen.completed);
    let stored = seen.result.unwrap();
    assert_eq!(stored.hostname, "first");
    assert_eq!(stored.appliance.unwrap().appliance_type, ApplianceType::X2Server);
    assert_eq!(shared.deadline(), 10_000);
}

#[test]
fn shared_delivery_without_session_is_fatal() {
    let shared = SharedSession::create(String::from("h"), 0, 10_000);
    assert_eq!(notify_shared(None, notification("h")), Err(FatalError::ContextMissing));
    assert_eq!(shared.read(), Reading { completed: false, result: None });
}

#[test]
fn shared_delivery_without_hostname_is_fatal() {
    let shared = SharedSession::create(String::from("h"), 0, 10_000);
    let nameless = Notification { hostname: None, verified: true, descriptor: None };
    assert_eq!(notify_shared(Some(&shared), nameless), Err(FatalError::HostnameMissingInCallback));
    assert_eq!(shared.read(), Reading { completed: false, result: None });
    let nameless = Notification { hostname: None, verified: true, descriptor: None };
    assert_eq!(notify_shared(None, nameless), Err(FatalError::ContextMissing));
}

#[test]
fn shared_loop_waits_then_times_out() {
    let shared = SharedSession::create(String::from("h"), 0, 3_000);
    let pump = LoopAction::Pump { blocking: true, max_wait_ms: 1000 };
    assert_eq!(
        shared.step(LoopState::Init, LoopEvent::Begin),
        Transition { next: LoopState::Dispatched, action: LoopAction::Dispatch }
    );
    assert_eq!(
        shared.step(LoopState::Dispatched, LoopEvent::PumpReturned { now_ms: 2_999 }),
        Transition { next: LoopState::Dispatched, action: pump }
    );
    assert_eq!(
        shared.step(LoopState::Dispatched, LoopEvent::PumpReturned { now_ms: 3_000 }),
        Transition { next: LoopState::TimedOut, action: LoopAction::ReportTimeout }
    );
}

#[test]
fn shared_loop_completes_after_delivery() {
    let shared = SharedSession::create(String::from("h"), 0, 3_000);
    assert_eq!(notify_shared(Some(&shared), notification("h")), Ok(true));
    assert_eq!(
        shared.step(LoopState::Dispatched, LoopEvent::PumpReturned { now_ms: 9_000 }),
        Transition { next: LoopState::Completed, action: LoopAction::Report }
    );
}

#[test]
fn every_reading_shows_flag_and_result_together() {
    let shared = SharedSession::create(String::from("h"), 0, 10_000);
    let mut round: u32 = 0;
    while round < 6 {
        let seen = shared.read();
        assert_eq!(seen.completed, seen.result.is_some());
        assert_eq!(seen.completed, round > 2);
        if round >= 2 {
            let name = if round == 2 { "first" } else { "later" };
            assert_eq!(notify_shared(Some(&shared), notification(name)), Ok(round == 2));
        }
        round += 1;
    }
    assert_eq!(shared.read().result.unwrap().hostname, "first");
}
