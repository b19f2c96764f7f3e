//! The session of a run behind a lock, for a notification that arrives on a
//! thread of the service while the loop reads on its own.
//!
//! What such a session holds at the moment of a call depends on the other
//! thread, so these contracts say what holds of every session that the call
//! may have met: one that is well formed, with the hostname and the deadline
//! that the session was opened with. What a step or a delivery does to one
//! given session is stated exactly by `transition` and `delivery`.

use vstd::prelude::*;
use vstd::rwlock::{RwLock, RwLockPredicate};
use crate::bridge::{build_result, Notification};
use crate::error::FatalError;
use crate::session::{result_view, SessionState, SessionView, VerificationResult};
use crate::verification::{step, transition, LoopEvent, LoopState, Transition};

verus! {

/// What stays the same in a shared session for as long as it lives.
pub struct SessionBound {
    pub hostname: Seq<char>,
    pub deadline: u64,
}

impl SessionBound {
    /// Whether `session` is a state that a shared session with these bounds
    /// may be in.
    pub open spec fn admits(self, session: SessionView) -> bool {
        &&& session.wf()
        &&& session.hostname == self.hostname
        &&& session.deadline == self.deadline
    }
}

impl RwLockPredicate<SessionState> for SessionBound {
    open spec fn inv(self, session: SessionState) -> bool {
        self.admits(session@)
    }
}

/// One reading of a shared session: the completion flag and the result as
/// they stood together at one moment.
#[derive(Debug, PartialEq, Eq)]
pub struct Reading {
    pub completed: bool,
    pub result: Option<VerificationResult>,
}

/// A session that the loop and the bridge may use at the same time.
pub struct SharedSession {
    deadline_ms: u64,
    lock: RwLock<SessionState, SessionBound>,
}

impl SharedSession {
    #[verifier::type_invariant]
    spec fn keeps_deadline(&self) -> bool {
        self.deadline_ms == self.lock.pred().deadline
    }

    /// The hostname and the deadline that the session was opened with.
    pub closed spec fn bound(&self) -> SessionBound {
        self.lock.pred()
    }

    /// Opens the shared session of a run that starts at `now_ms` and waits
    /// for `timeout_ms`.
    pub fn create(hostname: String, now_ms: u64, timeout_ms: u64) -> (shared: SharedSession)
        requires
            now_ms + timeout_ms <= u64::MAX,
        ensures
            shared.bound() == (SessionBound {
                hostname: hostname@,
                deadline: (now_ms + timeout_ms) as u64,
            }),
    {
        let ghost bound = SessionBound {
            hostname: hostname@,
            deadline: (now_ms + timeout_ms) as u64,
        };
        let session = SessionState::create(hostname, now_ms, timeout_ms);
        SharedSession { deadline_ms: now_ms + timeout_ms, lock: RwLock::new(session, Ghost(bound)) }
    }

    /// The time from which waiting is abandoned.
    pub fn deadline(&self) -> (deadline_ms: u64)
        ensures
            deadline_ms == self.bound().deadline,
    {
        proof {
            use_type_invariant(self);
        }
        self.deadline_ms
    }

    /// Reads the completion flag and the result in one go. Whatever another
    /// thread does meanwhile, the reading is never torn: it shows a result
    /// exactly when it shows completion.
    pub fn read(&self) -> (seen: Reading)
        ensures
            seen.completed <==> seen.result is Some,
            exists|session: SessionView| #[trigger]
                self.bound().admits(session) && seen.completed == session.completed && result_view(
                    seen.result,
                ) == session.result,
    {
        let handle = self.lock.acquire_read();
        let session = handle.borrow();
        let seen = Reading { completed: session.is_complete(), result: session.snapshot() };
        assert(self.bound().admits(session@));
        handle.release_read();
        seen
    }

    /// Takes one step of the loop on the session as it is now. The run times
    /// out on no step but the return of a pump call at or after the deadline.
    pub fn step(&self, state: LoopState, event: LoopEvent) -> (taken: Transition)
        ensures
            exists|session: SessionView| #[trigger]
                self.bound().admits(session) && taken == transition(state, event, session),
            taken.next == LoopState::TimedOut && state != LoopState::TimedOut ==> (
            event matches LoopEvent::PumpReturned { now_ms } && now_ms >= self.bound().deadline),
    {
        let handle = self.lock.acquire_read();
        let session = handle.borrow();
        let taken = step(state, event, session);
        assert(self.bound().admits(session@));
        handle.release_read();
        taken
    }

    /// Offers a result to the session. Whether it is stored depends on
    /// whether another was stored before.
    fn offer(&self, result: VerificationResult) -> (stored: bool) {
        let (mut session, handle) = self.lock.acquire_write();
        let stored = session.try_complete(result);
        handle.release_write(session);
        stored
    }
}

/// Delivers a notification to the shared session that was registered with
/// the service. A notification that arrives without session is fatal, and so
/// is one without hostname; any other is offered to the session, where it is
/// stored if it is the first.
pub fn notify_shared(context: Option<&SharedSession>, notification: Notification) -> (outcome: Result<
    bool,
    FatalError,
>)
    ensures
        outcome is Err <==> context is None || notification@.hostname is None,
        context is None ==> outcome == Err::<bool, FatalError>(FatalError::ContextMissing),
        context is Some && notification@.hostname is None ==> outcome == Err::<bool, FatalError>(
            FatalError::HostnameMissingInCallback,
        ),
{
    match context {
        Some(shared) => match build_result(notification) {
            Ok(result) => Ok(shared.offer(result)),
            Err(e) => Err(e),
        },
        None => Err(FatalError::ContextMissing),
    }
}

} // verus!
