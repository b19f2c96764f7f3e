//! The verification loop: a state machine from what the service did to what
//! the program does next. The program makes the calls and reads the clock;
//! every decision is taken here.

use vstd::prelude::*;
use vstd::string::StringExecFns;
use crate::bridge::{delivery, notified, NotificationView};
use crate::descriptor::{
    appliance_type_of, decode_mac, fixed_text, mac_text, ApplianceInfo, ApplianceInfoView,
    DescriptorView,
};
use crate::error::{FatalError, EXIT_FAILURE, EXIT_SUCCESS};
use crate::session::{SessionState, SessionView, VerificationResult};
use crate::version::{decode_version, version_text, CodecView, VersionCodec};

verus! {

/// The longest that one pump call may take, in milliseconds. The deadline is
/// looked at after every call, so it is missed by no more than this.
pub const PUMP_TICK_MS: u32 = 1000;

/// How long a run waits for the service's answer, in milliseconds.
pub const DEFAULT_TIMEOUT_MS: u64 = 10_000;

/// Where a run stands. `Completed`, `TimedOut` and `Fatal` are final.
#[derive(Clone, Copy, Debug, PartialEq, Eq, Structural)]
pub enum LoopState {
    Init,
    Dispatched,
    Completed,
    TimedOut,
    Fatal(FatalError),
}

/// What the program reports back to the loop.
#[derive(Clone, Copy, Debug, PartialEq, Eq, Structural)]
pub enum LoopEvent {
    /// The session is open and the bridge is registered.
    Begin,
    /// The service took the verify request.
    DispatchAccepted,
    /// The service refused the verify request.
    DispatchRejected,
    /// A pump call has returned, at `now_ms` on the clock of the run.
    PumpReturned { now_ms: u64 },
    /// A step outside the loop failed.
    Failed(FatalError),
}

/// What the program is to do next.
#[derive(Clone, Copy, Debug, PartialEq, Eq, Structural)]
pub enum LoopAction {
    /// Show the status line and hand the verify request to the service.
    Dispatch,
    /// Let the service work once, for `max_wait_ms` at most.
    Pump { blocking: bool, max_wait_ms: u32 },
    /// Show the report of the stored result and end with success.
    Report,
    /// Show the timeout notice and end with failure.
    ReportTimeout,
    /// Show the error's message and end with failure.
    Abort(FatalError),
    /// The event does not belong to the state: do nothing.
    Nothing,
}

/// One step of the loop: the state after it, and the action it calls for.
#[derive(Clone, Copy, Debug, PartialEq, Eq, Structural)]
pub struct Transition {
    pub next: LoopState,
    pub action: LoopAction,
}

/// One event together with the session as it was when the event was seen.
pub struct Observation {
    pub event: LoopEvent,
    pub session: SessionView,
}

/// The one pump call that the loop ever asks for.
pub open spec fn pump_tick() -> LoopAction {
    LoopAction::Pump { blocking: true, max_wait_ms: PUMP_TICK_MS }
}

/// The step that the loop takes in `state` on `event`, with the session as it
/// is at that moment.
///
/// A run begins by dispatching. Once the request is taken, every return of a
/// pump call is judged: a stored result completes the run, whatever the time;
/// without one the run times out at the deadline and after it, and pumps
/// again before it. A refusal or a failure is fatal. A final state is left by
/// no event.
pub open spec fn transition(state: LoopState, event: LoopEvent, session: SessionView) -> Transition {
    match (state, event) {
        (LoopState::Init, LoopEvent::Begin) => Transition {
            next: LoopState::Dispatched,
            action: LoopAction::Dispatch,
        },
        (LoopState::Init, LoopEvent::Failed(e)) => Transition {
            next: LoopState::Fatal(e),
            action: LoopAction::Abort(e),
        },
        (LoopState::Dispatched, LoopEvent::DispatchAccepted) => Transition {
            next: LoopState::Dispatched,
            action: pump_tick(),
        },
        (LoopState::Dispatched, LoopEvent::DispatchRejected) => Transition {
            next: LoopState::Fatal(FatalError::RequestRejected),
            action: LoopAction::Abort(FatalError::RequestRejected),
        },
        (LoopState::Dispatched, LoopEvent::Failed(e)) => Transition {
            next: LoopState::Fatal(e),
            action: LoopAction::Abort(e),
        },
        (LoopState::Dispatched, LoopEvent::PumpReturned { now_ms }) => if session.completed {
            Transition { next: LoopState::Completed, action: LoopAction::Report }
        } else if session.expired(now_ms) {
            Transition { next: LoopState::TimedOut, action: LoopAction::ReportTimeout }
        } else {
            Transition { next: LoopState::Dispatched, action: pump_tick() }
        },
        _ => Transition { next: state, action: LoopAction::Nothing },
    }
}

/// The state that a run is in after the observations of `trace`, in order.
pub open spec fn run(state: LoopState, trace: Seq<Observation>) -> LoopState
    decreases trace.len(),
{
    if trace.len() == 0 {
        state
    } else {
        transition(run(state, trace.drop_last()), trace.last().event, trace.last().session).next
    }
}

impl LoopState {
    /// Whether the run is over.
    pub open spec fn terminal(self) -> bool {
        self is Completed || self is TimedOut || self is Fatal
    }

    /// The process status that the state ends the run with, if it ends it.
    pub open spec fn exit_status(self) -> Option<u8> {
        match self {
            LoopState::Completed => Some(EXIT_SUCCESS),
            LoopState::TimedOut => Some(EXIT_FAILURE),
            LoopState::Fatal(_) => Some(EXIT_FAILURE),
            _ => None,
        }
    }

    /// Whether the run is over.
    pub fn is_terminal(&self) -> (over: bool)
        ensures
            over == self.terminal(),
    {
        match self {
            LoopState::Completed => true,
            LoopState::TimedOut => true,
            LoopState::Fatal(_) => true,
            _ => false,
        }
    }

    /// The process status that the state ends the run with: success after a
    /// completion, failure after a timeout or a fatal error, none before.
    pub fn exit_code(&self) -> (code: Option<u8>)
        ensures
            code == self.exit_status(),
            code is Some <==> self.terminal(),
    {
        match self {
            LoopState::Completed => Some(EXIT_SUCCESS),
            LoopState::TimedOut => Some(EXIT_FAILURE),
            LoopState::Fatal(_) => Some(EXIT_FAILURE),
            _ => None,
        }
    }
}

/// Takes one step of the loop.
pub fn step(state: LoopState, event: LoopEvent, session: &SessionState) -> (taken: Transition)
    ensures
        taken == transition(state, event, session@),
{
    let pump = LoopAction::Pump { blocking: true, max_wait_ms: PUMP_TICK_MS };
    match state {
        LoopState::Init => match event {
            LoopEvent::Begin => Transition {
                next: LoopState::Dispatched,
                action: LoopAction::Dispatch,
            },
            LoopEvent::Failed(e) => Transition {
                next: LoopState::Fatal(e),
                action: LoopAction::Abort(e),
            },
            _ => Transition { next: state, action: LoopAction::Nothing },
        },
        LoopState::Dispatched => match event {
            LoopEvent::DispatchAccepted => Transition { next: LoopState::Dispatched, action: pump },
            LoopEvent::DispatchRejected => Transition {
                next: LoopState::Fatal(FatalError::RequestRejected),
                action: LoopAction::Abort(FatalError::RequestRejected),
            },
            LoopEvent::Failed(e) => Transition {
                next: LoopState::Fatal(e),
                action: LoopAction::Abort(e),
            },
            LoopEvent::PumpReturned { now_ms } => {
                if session.is_complete() {
                    Transition { next: LoopState::Completed, action: LoopAction::Report }
                } else if session.is_expired(now_ms) {
                    Transition { next: LoopState::TimedOut, action: LoopAction::ReportTimeout }
                } else {
                    Transition { next: LoopState::Dispatched, action: pump }
                }
            },
            _ => Transition { next: state, action: LoopAction::Nothing },
        },
        _ => Transition { next: state, action: LoopAction::Nothing },
    }
}

/// The status line for a run against `hostname`.
pub open spec fn status_text(hostname: Seq<char>) -> Seq<char> {
    "Connecting "@ + hostname + "..."@
}

/// The notice for a run that timed out.
pub open spec fn timeout_text() -> Seq<char> {
    "Timeout waiting for verify"@
}

/// The report of a verified appliance.
pub open spec fn report_text(info: ApplianceInfoView, codec: CodecView) -> Seq<char> {
    info.appliance_type.name_text() + " Mac "@ + mac_text(info.mac) + ", build "@ + version_text(
        codec,
        info.build_number,
    ) + ", release "@ + info.release_name + " system setup "@ + info.system_setup + " timezone "@
        + info.timezone_id + " type "@ + info.appliance_type.name_text()
}

/// The status line that is shown when a run begins.
pub fn status_line(hostname: &str) -> (line: String)
    ensures
        line@ == status_text(hostname@),
{
    let mut line = String::from_str("Connecting ");
    line.append(hostname);
    line.append("...");
    line
}

/// The notice that is shown when a run times out.
pub fn timeout_message() -> (message: &'static str)
    ensures
        message@ == timeout_text(),
{
    "Timeout waiting for verify"
}

/// The report line for a verified appliance. The build number is shown as
/// `codec` renders it.
pub fn report_line(info: &ApplianceInfo, codec: &VersionCodec) -> (line: String)
    ensures
        line@ == report_text(info@, codec@),
{
    let kind = info.appliance_type.name();
    let mac = decode_mac(&info.mac);
    let build = decode_version(codec, info.build_number);
    let mut line = String::from_str(kind);
    line.append(" Mac ");
    line.append(mac.as_str());
    line.append(", build ");
    line.append(build.as_str());
    line.append(", release ");
    line.append(info.release_name.as_str());
    line.append(" system setup ");
    line.append(info.system_setup.as_str());
    line.append(" timezone ");
    line.append(info.timezone_id.as_str());
    line.append(" type ");
    line.append(kind);
    line
}

/// The report line for a stored result: there is one where the result holds
/// an appliance, none where the hostname was not verified.
pub fn completion_report(result: &VerificationResult, codec: &VersionCodec) -> (line: Option<String>)
    ensures
        match line {
            Some(text) => result@.appliance matches Some(info) && text@ == report_text(
                info,
                codec@,
            ),
            None => result@.appliance is None,
        },
{
    match &result.appliance {
        Some(info) => Some(report_line(info, codec)),
        None => None,
    }
}

/// A run times out only on the return of a pump call at or after the
/// deadline, with no result stored, and on every such return while it waits.
pub proof fn lemma_timeout_at_deadline(state: LoopState, event: LoopEvent, session: SessionView)
    ensures
        transition(state, event, session).next == LoopState::TimedOut && state != LoopState::TimedOut
            ==> state == LoopState::Dispatched && !session.completed && (event matches LoopEvent::PumpReturned {
            now_ms,
        } && now_ms >= session.deadline),
        forall|now_ms: u64|
            !session.completed && now_ms >= session.deadline ==> (#[trigger] transition(
                LoopState::Dispatched,
                LoopEvent::PumpReturned { now_ms },
                session,
            )).next == LoopState::TimedOut,
        forall|now_ms: u64|
            now_ms < session.deadline ==> (#[trigger] transition(
                LoopState::Dispatched,
                LoopEvent::PumpReturned { now_ms },
                session,
            )).next != LoopState::TimedOut,
{
}

/// The loop pumps in one way only: blocking, for one tick at most. So the
/// deadline is looked at again no later than one tick after it has passed.
pub proof fn lemma_pump_is_blocking_and_bounded(
    state: LoopState,
    event: LoopEvent,
    session: SessionView,
)
    ensures
        transition(state, event, session).action is Pump ==> transition(
            state,
            event,
            session,
        ).action == (LoopAction::Pump { blocking: true, max_wait_ms: PUMP_TICK_MS })
            && transition(state, event, session).next == LoopState::Dispatched,
{
}

/// A final state is left by no event.
pub proof fn lemma_terminal_is_final(state: LoopState, event: LoopEvent, session: SessionView)
    requires
        state.terminal(),
    ensures
        transition(state, event, session).next == state,
        transition(state, event, session).action == LoopAction::Nothing,
{
}

/// A run that ends timed out has seen a pump call return at or after the
/// deadline while no result was stored: it never times out before.
pub proof fn lemma_run_times_out_at_deadline(trace: Seq<Observation>)
    requires
        run(LoopState::Init, trace) == LoopState::TimedOut,
    ensures
        exists|i: int|
            0 <= i < trace.len() && !(#[trigger] trace[i]).session.completed && (
            trace[i].event matches LoopEvent::PumpReturned { now_ms } && now_ms
                >= trace[i].session.deadline),
    decreases trace.len(),
{
    if trace.len() > 0 {
        let before = trace.drop_last();
        let last = trace.last();
        if run(LoopState::Init, before) == LoopState::TimedOut {
            lemma_run_times_out_at_deadline(before);
            let i = choose|i: int|
                0 <= i < before.len() && !(#[trigger] before[i]).session.completed && (
                before[i].event matches LoopEvent::PumpReturned { now_ms } && now_ms
                    >= before[i].session.deadline);
            assert(trace[i] == before[i]);
        } else {
            lemma_timeout_at_deadline(run(LoopState::Init, before), last.event, last.session);
            assert(trace[trace.len() - 1] == last);
        }
    }
}

/// Whether every observation of `trace` is the return of a pump call that
/// found no result stored, in a session that waits until `deadline`.
pub open spec fn waits(trace: Seq<Observation>, deadline: u64) -> bool {
    forall|i: int|
        0 <= i < trace.len() ==> (#[trigger] trace[i]).event is PumpReturned
            && !trace[i].session.completed && trace[i].session.deadline == deadline
}

/// Whether some pump call of `trace` returned at `deadline` or after it.
pub open spec fn reaches(trace: Seq<Observation>, deadline: u64) -> bool {
    exists|i: int|
        0 <= i < trace.len() && ((#[trigger] trace[i]).event matches LoopEvent::PumpReturned {
            now_ms,
        } && now_ms >= deadline)
}

/// Without a notification, waiting ends in a timeout exactly when a pump call
/// has returned at the deadline or after it; until then the run goes on.
pub proof fn lemma_wait_ends_at_deadline(trace: Seq<Observation>, deadline: u64)
    requires
        waits(trace, deadline),
    ensures
        reaches(trace, deadline) ==> run(LoopState::Dispatched, trace) == LoopState::TimedOut,
        !reaches(trace, deadline) ==> run(LoopState::Dispatched, trace) == LoopState::Dispatched,
    decreases trace.len(),
{
    if trace.len() > 0 {
        let before = trace.drop_last();
        let last = trace.last();
        assert forall|i: int| 0 <= i < before.len() implies (#[trigger] before[i]) == trace[i] by {}
        assert(trace[trace.len() - 1] == last);
        lemma_wait_ends_at_deadline(before, deadline);
        if reaches(before, deadline) {
            let i = choose|i: int|
                0 <= i < before.len() && ((#[trigger] before[i]).event matches LoopEvent::PumpReturned {
                    now_ms,
                } && now_ms >= deadline);
            assert(trace[i] == before[i]);
        } else if reaches(trace, deadline) {
            let i = choose|i: int|
                0 <= i < trace.len() && ((#[trigger] trace[i]).event matches LoopEvent::PumpReturned {
                    now_ms,
                } && now_ms >= deadline);
            if i < before.len() {
                assert(before[i] == trace[i]);
            }
        }
    }
}

/// A verified notification with a record, delivered to an open session after
/// the request was taken, completes the run at the next return of a pump
/// call, whatever the time: the notification is stored, the loop reports, and
/// the stored appliance is the record field for field.
pub proof fn lemma_round_trip(
    target: Seq<char>,
    deadline: u64,
    hostname: Seq<char>,
    record: DescriptorView,
    now_ms: u64,
)
    ensures
        ({
            let opened = SessionView::created(target, deadline);
            let n = NotificationView {
                hostname: Some(hostname),
                verified: true,
                descriptor: Some(record),
            };
            let session = notified(opened, n);
            let trace = seq![
                Observation { event: LoopEvent::Begin, session: opened },
                Observation { event: LoopEvent::DispatchAccepted, session: opened },
                Observation { event: LoopEvent::PumpReturned { now_ms }, session },
            ];
            &&& delivery(Some(opened), n) == Ok::<bool, FatalError>(true)
            &&& run(LoopState::Init, trace) == LoopState::Completed
            &&& transition(LoopState::Dispatched, LoopEvent::PumpReturned { now_ms }, session).action
                == LoopAction::Report
            &&& session.wf()
            &&& session.result matches Some(result)
            &&& result.hostname == hostname
            &&& result.verified
            &&& result.appliance matches Some(info)
            &&& info.mac == record.mac
            &&& info.build_number == record.build_number
            &&& info.release_name == fixed_text(record.release_name, record.release_name.len())
            &&& info.system_setup == fixed_text(record.system_setup, record.system_setup.len())
            &&& info.timezone_id == fixed_text(record.timezone_id, record.timezone_id.len())
            &&& info.appliance_type == appliance_type_of(record.appliance_type)
        }),
{
    let opened = SessionView::created(target, deadline);
    let n = NotificationView { hostname: Some(hostname), verified: true, descriptor: Some(record) };
    let session = notified(opened, n);
    let trace = seq![
        Observation { event: LoopEvent::Begin, session: opened },
        Observation { event: LoopEvent::DispatchAccepted, session: opened },
        Observation { event: LoopEvent::PumpReturned { now_ms }, session },
    ];
    let two = trace.drop_last();
    let one = two.drop_last();
    assert(one.drop_last() =~= Seq::<Observation>::empty());
    assert(run(LoopState::Init, one.drop_last()) == LoopState::Init);
    assert(run(LoopState::Init, one) == LoopState::Dispatched);
    assert(run(LoopState::Init, two) == LoopState::Dispatched);
}

} // verus!
