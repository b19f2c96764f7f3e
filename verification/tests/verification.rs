use mylaps_x2::bridge::{notify, Notification};
use mylaps_x2::descriptor::{
    ApplianceDescriptor, ApplianceInfo, ApplianceType, APPLIANCE_TYPE_X2_PRO_SERVER,
};
use mylaps_x2::error::{FatalError, EXIT_FAILURE, EXIT_SUCCESS};
use mylaps_x2::hostname::{accept_hostname, encode_hostname};
use mylaps_x2::session::{SessionState, VerificationResult};
use mylaps_x2::verification::{
    completion_report, report_line, status_line, step, timeout_message, LoopAction, LoopEvent,
    LoopState, Transition, DEFAULT_TIMEOUT_MS, PUMP_TICK_MS,
};
use mylaps_x2::version::{VersionCodec, VersionField};

const PUMP: LoopAction = LoopAction::Pump { blocking: true, max_wait_ms: 1000 };

fn codec() -> VersionCodec {
    VersionCodec::new(
        vec![
            VersionField { shift: 24, width: 8 },
            VersionField { shift: 16, width: 8 },
            VersionField { shift: 8, width: 8 },
            VersionField { shift: 0, width: 8 },
        ],
        '.',
    )
}

fn open_session() -> SessionState {
    SessionState::create(String::from("x2.example"), 1_000, 10_000)
}

fn completed_session() -> SessionState {
    let mut session = open_session();
    session.try_complete(VerificationResult {
        hostname: String::from("x2.example"),
        verified: false,
        appliance: None,
    });
    session
}

fn all_events() -> Vec<LoopEvent> {
    vec![
        LoopEvent::Begin,
        LoopEvent::DispatchAccepted,
        LoopEvent::DispatchRejected,
        LoopEvent::PumpReturned { now_ms: 0 },
        LoopEvent::PumpReturned { now_ms: u64::MAX },
        LoopEvent::Failed(FatalError::AllocationFailed),
    ]
}

#[test]
fn run_begins_by_dispatching() {
    let taken = step(LoopState::Init, LoopEvent::Begin, &open_session());
    assert_eq!(taken, Transition { next: LoopState::Dispatched, action: LoopAction::Dispatch });
}

#[test]
fn accepted_request_starts_pumping() {
    let taken = step(LoopState::Dispatched, LoopEvent::DispatchAccepted, &open_session());
    assert_eq!(taken, Transition { next: LoopState::Dispatched, action: PUMP });
    assert_eq!(PUMP_TICK_MS, 1000);
}

#[test]
fn rejected_request_is_fatal() {
    let taken = step(LoopState::Dispatched, LoopEvent::DispatchRejected, &open_session());
    assert_eq!(
        taken,
        Transition {
            next: LoopState::Fatal(FatalError::RequestRejected),
            action: LoopAction::Abort(FatalError::RequestRejected),
        }
    );
}

#[test]
fn failure_is_fatal_before_and_after_dispatch() {
    let session = open_session();
    let early = step(LoopState::Init, LoopEvent::Failed(FatalError::AllocationFailed), &session);
    assert_eq!(early.next, LoopState::Fatal(FatalError::AllocationFailed));
    assert_eq!(early.action, LoopAction::Abort(FatalError::AllocationFailed));
    let late = step(
        LoopState::Dispatched,
        LoopEvent::Failed(FatalError::InvalidHostnameEncoding),
        &session,
    );
    assert_eq!(late.next, LoopState::Fatal(FatalError::InvalidHostnameEncoding));
    assert_eq!(late.action, LoopAction::Abort(FatalError::InvalidHostnameEncoding));
}

#[test]
fn loop_pumps_again_before_the_deadline() {
    let session = open_session();
    for now_ms in [0, 1_000, 5_000, 10_999] {
        let taken = step(LoopState::Dispatched, LoopEvent::PumpReturned { now_ms }, &session);
        assert_eq!(taken, Transition { next: LoopState::Dispatched, action: PUMP });
    }
}

#[test]
fn loop_times_out_at_the_deadline_and_after() {
    let session = open_session();
    for now_ms in [11_000, 11_001, 60_000, u64::MAX] {
        let taken = step(LoopState::Dispatched, LoopEvent::PumpReturned { now_ms }, &session);
        assert_eq!(
            taken,
            Transition { next: LoopState::TimedOut, action: LoopAction::ReportTimeout }
        );
    }
}

#[test]
fn loop_never_times_out_without_a_pump_return() {
    let session = open_session();
    for state in [LoopState::Init, LoopState::Dispatched] {
        for event in [
            LoopEvent::Begin,
            LoopEvent::DispatchAccepted,
            LoopEvent::DispatchRejected,
            LoopEvent::Failed(FatalError::ContextMissing),
        ] {
            assert_ne!(step(state, event, &session).next, LoopState::TimedOut);
        }
    }
    let early = step(LoopState::Init, LoopEvent::PumpReturned { now_ms: u64::MAX }, &session);
    assert_eq!(early, Transition { next: LoopState::Init, action: LoopAction::Nothing });
}

#[test]
fn stored_result_completes_the_run_whatever_the_time() {
    let session = completed_session();
    for now_ms in [0, 10_999, 11_000, u64::MAX] {
        let taken = step(LoopState::Dispatched, LoopEvent::PumpReturned { now_ms }, &session);
        assert_eq!(taken, Transition { next: LoopState::Completed, action: LoopAction::Report });
    }
}

#[test]
fn final_states_are_left_by_no_event() {
    let open = open_session();
    let done = completed_session();
    for state in [
        LoopState::Completed,
        LoopState::TimedOut,
        LoopState::Fatal(FatalError::RequestRejected),
    ] {
        for event in all_events() {
            let expected = Transition { next: state, action: LoopAction::Nothing };
            assert_eq!(step(state, event, &open), expected);
            assert_eq!(step(state, event, &done), expected);
        }
    }
}

#[test]
fn events_out_of_place_change_nothing() {
    let session = open_session();
    for event in [
        LoopEvent::DispatchAccepted,
        LoopEvent::DispatchRejected,
        LoopEvent::PumpReturned { now_ms: 99_999 },
    ] {
        let taken = step(LoopState::Init, event, &session);
        assert_eq!(taken, Transition { next: LoopState::Init, action: LoopAction::Nothing });
    }
    let again = step(LoopState::Dispatched, LoopEvent::Begin, &session);
    assert_eq!(again, Transition { next: LoopState::Dispatched, action: LoopAction::Nothing });
}

#[test]
fn exit_codes() {
    assert_eq!(LoopState::Init.exit_code(), None);
    assert_eq!(LoopState::Dispatched.exit_code(), None);
    assert_eq!(LoopState::Completed.exit_code(), Some(0));
    assert_eq!(LoopState::TimedOut.exit_code(), Some(1));
    assert_eq!(LoopState::Fatal(FatalError::ContextMissing).exit_code(), Some(1));
    assert_eq!(EXIT_SUCCESS, 0);
    assert_eq!(EXIT_FAILURE, 1);
    assert_eq!(FatalError::AllocationFailed.exit_code(), 1);
}

#[test]
fn terminal_states() {
    assert!(!LoopState::Init.is_terminal());
    assert!(!LoopState::Dispatched.is_terminal());
    assert!(LoopState::Completed.is_terminal());
    assert!(LoopState::TimedOut.is_terminal());
    assert!(LoopState::Fatal(FatalError::HostnameMissingInCallback).is_terminal());
}

#[test]
fn default_timeout_is_ten_seconds() {
    assert_eq!(DEFAULT_TIMEOUT_MS, 10_000);
}

#[test]
fn round_trip_from_dispatch_to_report() {
    let record = ApplianceDescriptor {
        mac: [0x00, 0x1A, 0x2B, 0x3C, 0x4D, 0x5E],
        build_number: 0x0102_0304,
        release_name: b"R1\0\0".to_vec(),
        system_setup: b"Main\0".to_vec(),
        timezone_id: b"Europe/Amsterdam\0".to_vec(),
        appliance_type: APPLIANCE_TYPE_X2_PRO_SERVER,
    };
    let mut session = open_session();
    let mut state = LoopState::Init;

    let begun = step(state, LoopEvent::Begin, &session);
    assert_eq!(begun.action, LoopAction::Dispatch);
    state = begun.next;
    let accepted = step(state, LoopEvent::DispatchAccepted, &session);
    assert_eq!(accepted.action, PUMP);
    state = accepted.next;
    let waiting = step(state, LoopEvent::PumpReturned { now_ms: 2_000 }, &session);
    assert_eq!(waiting.action, PUMP);
    state = waiting.next;

    let delivered = notify(
        Some(&mut session),
        Notification {
            hostname: Some(String::from("x2.example")),
            verified: true,
            descriptor: Some(record),
        },
    );
    assert_eq!(delivered, Ok(true));

    let done = step(state, LoopEvent::PumpReturned { now_ms: 3_000 }, &session);
    assert_eq!(done, Transition { next: LoopState::Completed, action: LoopAction::Report });
    assert_eq!(done.next.exit_code(), Some(0));

    let stored = session.snapshot().unwrap();
    assert_eq!(stored.hostname, "x2.example");
    assert!(stored.verified);
    let info = stored.appliance.clone().unwrap();
    assert_eq!(info.mac, [0x00, 0x1A, 0x2B, 0x3C, 0x4D, 0x5E]);
    assert_eq!(info.build_number, 0x0102_0304);
    assert_eq!(info.release_name, "R1");
    assert_eq!(info.system_setup, "Main");
    assert_eq!(info.timezone_id, "Europe/Amsterdam");
    assert_eq!(info.appliance_type, ApplianceType::X2ProServer);
    assert_eq!(
        completion_report(&stored, &codec()),
        Some(String::from(
            "X2ProServer Mac 00:1a:2b:3c:4d:5e, build 1.2.3.4, release R1 system setup Main timezone Europe/Amsterdam type X2ProServer"
        ))
    );
}

#[test]
fn run_without_notification_times_out() {
    let session = open_session();
    let mut state = step(LoopState::Init, LoopEvent::Begin, &session).next;
    state = step(state, LoopEvent::DispatchAccepted, &session).next;
    let mut now_ms: u64 = 1_000;
    while !state.is_terminal() {
        now_ms += 1_000;
        let taken = step(state, LoopEvent::PumpReturned { now_ms }, &session);
        if taken.next == LoopState::TimedOut {
            assert!(now_ms >= session.deadline());
        } else {
            assert!(now_ms < session.deadline());
        }
        state = taken.next;
    }
    assert_eq!(state, LoopState::TimedOut);
    assert_eq!(now_ms, 11_000);
    assert_eq!(state.exit_code(), Some(1));
}

#[test]
fn report_line_of_an_appliance() {
    let info = ApplianceInfo {
        mac: [0xde, 0xad, 0xbe, 0xef, 0x00, 0x01],
        build_number: 0x0403_0201,
        release_name: String::from("Summer 2020"),
        system_setup: String::from("Track 1"),
        timezone_id: String::from("UTC"),
        appliance_type: ApplianceType::X2Server,
    };
    assert_eq!(
        report_line(&info, &codec()),
        "X2Server Mac de:ad:be:ef:00:01, build 4.3.2.1, release Summer 2020 system setup Track 1 timezone UTC type X2Server"
    );
}

#[test]
fn report_line_of_an_unknown_type_with_empty_texts() {
    let info = ApplianceInfo {
        mac: [0, 0, 0, 0, 0, 0],
        build_number: 0,
        release_name: String::new(),
        system_setup: String::new(),
        timezone_id: String::new(),
        appliance_type: ApplianceType::Unknown,
    };
    assert_eq!(
        report_line(&info, &codec()),
        "Unknown Mac 00:00:00:00:00:00, build 0.0.0.0, release  system setup  timezone  type Unknown"
    );
}

#[test]
fn result_without_appliance_has_no_report() {
    let result =
        VerificationResult { hostname: String::from("h"), verified: false, appliance: None };
    assert_eq!(completion_report(&result, &codec()), None);
}

#[test]
fn status_line_names_the_target() {
    assert_eq!(status_line("x2.example"), "Connecting x2.example...");
    assert_eq!(status_line(""), "Connecting ...");
}

#[test]
fn timeout_notice() {
    assert_eq!(timeout_message(), "Timeout waiting for verify");
}

#[test]
fn fatal_messages() {
    assert_eq!(FatalError::AllocationFailed.message(), "Unable to get sdk handle");
    assert_eq!(FatalError::InvalidHostnameEncoding.message(), "Unable to convert hostname");
    assert_eq!(FatalError::RequestRejected.message(), "verify appliance failed");
    assert_eq!(
        FatalError::HostnameMissingInCallback.message(),
        "Hostname is null in notify_verify handler"
    );
    assert_eq!(FatalError::ContextMissing.message(), "Context is null in notify_verify handler");
}

#[test]
fn hostname_argument_must_be_given_and_not_empty() {
    assert_eq!(accept_hostname(None), None);
    assert_eq!(accept_hostname(Some(String::new())), None);
    assert_eq!(accept_hostname(Some(String::from("x2.example"))), Some(String::from("x2.example")));
    assert_eq!(accept_hostname(Some(String::from(" "))), Some(String::from(" ")));
}

#[test]
fn hostname_is_encoded_with_a_terminator() {
    assert_eq!(encode_hostname("x2"), Ok(vec![b'x', b'2', 0]));
    assert_eq!(encode_hostname(""), Ok(vec![0]));
    assert_eq!(encode_hostname("é"), Ok(vec![0xc3, 0xa9, 0]));
}

#[test]
fn hostname_with_a_zero_byte_cannot_be_encoded() {
    assert_eq!(encode_hostname("x2\0.example"), Err(FatalError::InvalidHostnameEncoding));
    assert_eq!(encode_hostname("\0"), Err(FatalError::InvalidHostnameEncoding));
    assert_eq!(encode_hostname("x2\0"), Err(FatalError::InvalidHostnameEncoding));
}
