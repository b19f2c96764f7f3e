//! The state that a run shares between the waiting loop, which reads it, and
//! the notification, which completes it once.

use vstd::prelude::*;
use crate::descriptor::{ApplianceInfo, ApplianceInfoView};

verus! {

/// The outcome that the service reports for one hostname.
#[derive(Debug, PartialEq, Eq)]
pub struct VerificationResult {
    /// The hostname as the service echoed it.
    pub hostname: String,
    pub verified: bool,
    /// The appliance's identity, where it was verified and described.
    pub appliance: Option<ApplianceInfo>,
}

/// What a `VerificationResult` holds.
pub struct ResultView {
    pub hostname: Seq<char>,
    pub verified: bool,
    pub appliance: Option<ApplianceInfoView>,
}

/// What an optional appliance identity holds.
pub open spec fn appliance_view(appliance: Option<ApplianceInfo>) -> Option<ApplianceInfoView> {
    match appliance {
        Some(info) => Some(info@),
        None => None,
    }
}

/// What an optional result holds.
pub open spec fn result_view(result: Option<VerificationResult>) -> Option<ResultView> {
    match result {
        Some(r) => Some(r@),
        None => None,
    }
}

impl View for VerificationResult {
    type V = ResultView;

    open spec fn view(&self) -> ResultView {
        ResultView {
            hostname: self.hostname@,
            verified: self.verified,
            appliance: appliance_view(self.appliance),
        }
    }
}

impl Clone for VerificationResult {
    fn clone(&self) -> (copy: Self)
        ensures
            copy == *self,
    {
        let appliance = match &self.appliance {
            Some(info) => Some(info.clone()),
            None => None,
        };
        VerificationResult { hostname: self.hostname.clone(), verified: self.verified, appliance }
    }
}

/// What a `SessionState` holds. Times are milliseconds on the clock of the run.
pub struct SessionView {
    /// The hostname that the run is to verify.
    pub hostname: Seq<char>,
    pub completed: bool,
    /// The time from which waiting is abandoned.
    pub deadline: u64,
    pub result: Option<ResultView>,
}

impl SessionView {
    /// A result is held exactly when the session is completed.
    pub open spec fn wf(self) -> bool {
        self.completed <==> self.result is Some
    }

    /// The session of a run that has not heard from the service yet.
    pub open spec fn created(hostname: Seq<char>, deadline: u64) -> SessionView {
        SessionView { hostname, completed: false, deadline, result: None }
    }

    /// Whether a result offered now would be stored.
    pub open spec fn accepts(self) -> bool {
        !self.completed
    }

    /// The session after `result` was offered: completed with it where the
    /// session was open, unchanged where it was completed before.
    pub open spec fn try_complete(self, result: ResultView) -> SessionView {
        if self.completed {
            self
        } else {
            SessionView { completed: true, result: Some(result), ..self }
        }
    }

    /// Whether waiting is over at `now`.
    pub open spec fn expired(self, now: u64) -> bool {
        now >= self.deadline
    }
}

/// The completion flag and the result, which are only ever written together.
#[derive(Debug)]
struct Publication {
    completed: bool,
    result: Option<VerificationResult>,
}

impl Publication {
    #[verifier::type_invariant]
    spec fn holds_result_when_completed(&self) -> bool {
        self.completed <==> self.result is Some
    }
}

/// The state of one run: whether the service has answered, with what, and
/// until when an answer is waited for.
#[derive(Debug)]
pub struct SessionState {
    hostname: String,
    deadline_ms: u64,
    published: Publication,
}

impl View for SessionState {
    type V = SessionView;

    closed spec fn view(&self) -> SessionView {
        SessionView {
            hostname: self.hostname@,
            completed: self.published.completed,
            deadline: self.deadline_ms,
            result: result_view(self.published.result),
        }
    }
}

impl SessionState {
    /// Opens the session of a run that starts at `now_ms` and waits for
    /// `timeout_ms`.
    pub fn create(hostname: String, now_ms: u64, timeout_ms: u64) -> (session: SessionState)
        requires
            now_ms + timeout_ms <= u64::MAX,
        ensures
            session@ == SessionView::created(hostname@, (now_ms + timeout_ms) as u64),
            session@.wf(),
    {
        SessionState {
            hostname,
            deadline_ms: now_ms + timeout_ms,
            published: Publication { completed: false, result: None },
        }
    }

    /// Offers a result. The first one offered is stored and completes the
    /// session; any later one is dropped and changes nothing.
    pub fn try_complete(&mut self, result: VerificationResult) -> (stored: bool)
        ensures
            stored == old(self)@.accepts(),
            final(self)@ == old(self)@.try_complete(result@),
            final(self)@.wf(),
    {
        proof {
            use_type_invariant(&self.published);
        }
        if self.published.completed {
            false
        } else {
            self.published = Publication { completed: true, result: Some(result) };
            true
        }
    }

    /// Whether a result has been stored.
    pub fn is_complete(&self) -> (done: bool)
        ensures
            done == self@.completed,
            done == (self@.result is Some),
    {
        proof {
            use_type_invariant(&self.published);
        }
        self.published.completed
    }

    /// A copy of the stored result, if there is one.
    pub fn snapshot(&self) -> (copy: Option<VerificationResult>)
        ensures
            result_view(copy) == self@.result,
            (copy is Some) == self@.completed,
    {
        proof {
            use_type_invariant(&self.published);
        }
        match &self.published.result {
            Some(r) => Some(r.clone()),
            None => None,
        }
    }

    /// The time from which waiting is abandoned.
    pub fn deadline(&self) -> (deadline_ms: u64)
        ensures
            deadline_ms == self@.deadline,
    {
        self.deadline_ms
    }

    /// Whether waiting is over at `now_ms`: at the deadline and after it.
    pub fn is_expired(&self, now_ms: u64) -> (over: bool)
        ensures
            over == self@.expired(now_ms),
    {
        now_ms >= self.deadline_ms
    }

    /// The hostname that the run is to verify.
    pub fn hostname(&self) -> (hostname: &str)
        ensures
            hostname@ == self@.hostname,
    {
        self.hostname.as_str()
    }
}

/// Completion is kept. Whatever is offered to a well-formed session, the
/// session is well formed and completed afterwards, with its hostname and
/// deadline as before; and a session that was completed before is not changed
/// at all, so its flag never reverts and its result never changes.
pub proof fn lemma_completion_is_kept(session: SessionView, result: ResultView)
    requires
        session.wf(),
    ensures
        session.try_complete(result).wf(),
        session.try_complete(result).completed,
        session.try_complete(result).deadline == session.deadline,
        session.try_complete(result).hostname == session.hostname,
        session.completed ==> session.try_complete(result) == session,
        !session.completed ==> session.try_complete(result).result == Some(result),
{
}

/// Of two results offered in a row only the first can be stored: the second
/// offer is refused and leaves the session, and so the stored result, as the
/// first offer left it.
pub proof fn lemma_first_write_wins(session: SessionView, first: ResultView, second: ResultView)
    ensures
        !session.try_complete(first).accepts(),
        session.try_complete(first).try_complete(second) == session.try_complete(first),
        session.accepts() ==> session.try_complete(first).try_complete(second).result == Some(first),
{
}

} // verus!
