//! The notification bridge: what the service's one-shot notification does to
//! the session of the run.

use vstd::prelude::*;
use crate::descriptor::{decode, decoded, ApplianceDescriptor, DescriptorView};
use crate::error::FatalError;
use crate::session::{ResultView, SessionState, SessionView, VerificationResult};

verus! {

/// One notification as the service delivers it. The hostname may be absent,
/// which the service never intends.
#[derive(Debug, PartialEq, Eq)]
pub struct Notification {
    pub hostname: Option<String>,
    pub verified: bool,
    pub descriptor: Option<ApplianceDescriptor>,
}

/// What a `Notification` holds.
pub struct NotificationView {
    pub hostname: Option<Seq<char>>,
    pub verified: bool,
    pub descriptor: Option<DescriptorView>,
}

impl View for Notification {
    type V = NotificationView;

    open spec fn view(&self) -> NotificationView {
        NotificationView {
            hostname: match self.hostname {
                Some(name) => Some(name@),
                None => None,
            },
            verified: self.verified,
            descriptor: match self.descriptor {
                Some(d) => Some(d@),
                None => None,
            },
        }
    }
}

/// What an optional session holds.
pub open spec fn context_view(context: Option<&mut SessionState>) -> Option<SessionView> {
    match context {
        Some(session) => Some(session@),
        None => None,
    }
}

/// The result that a notification reports, where it names a hostname. The
/// appliance is decoded only for a verified notification with a record.
pub open spec fn reported(n: NotificationView) -> Option<ResultView> {
    match n.hostname {
        Some(hostname) => Some(
            ResultView {
                hostname,
                verified: n.verified,
                appliance: match n.descriptor {
                    Some(d) => if n.verified {
                        Some(decoded(d))
                    } else {
                        None
                    },
                    None => None,
                },
            },
        ),
        None => None,
    }
}

/// The session after a notification: offered the reported result, or left
/// alone where the notification names no hostname.
pub open spec fn notified(session: SessionView, n: NotificationView) -> SessionView {
    match reported(n) {
        Some(result) => session.try_complete(result),
        None => session,
    }
}

/// What a delivery comes to. A notification that arrives without session is
/// fatal, whatever it holds; one without hostname is fatal too. Any other
/// tells whether its result was stored: the first is, a duplicate is dropped
/// without error.
pub open spec fn delivery(context: Option<SessionView>, n: NotificationView) -> Result<
    bool,
    FatalError,
> {
    match context {
        None => Err(FatalError::ContextMissing),
        Some(session) => match reported(n) {
            None => Err(FatalError::HostnameMissingInCallback),
            Some(_) => Ok(session.accepts()),
        },
    }
}

/// Builds the result that a notification reports. One without hostname
/// reports none, which is fatal. The result holds an appliance exactly where
/// the notification is verified and brings a record.
pub fn build_result(notification: Notification) -> (built: Result<VerificationResult, FatalError>)
    ensures
        built is Ok <==> notification@.hostname is Some,
        match built {
            Ok(result) => reported(notification@) == Some(result@) && (result@.appliance is Some
                <==> notification@.verified && notification@.descriptor is Some),
            Err(e) => reported(notification@) is None && e == FatalError::HostnameMissingInCallback,
        },
{
    let Notification { hostname, verified, descriptor } = notification;
    match hostname {
        Some(hostname) => {
            let appliance = match &descriptor {
                Some(d) => {
                    if verified {
                        Some(decode(d))
                    } else {
                        None
                    }
                },
                None => None,
            };
            Ok(VerificationResult { hostname, verified, appliance })
        },
        None => Err(FatalError::HostnameMissingInCallback),
    }
}

/// Delivers a notification to the session that was registered with the
/// service. `context` is that session as the service handed it back; it is
/// looked at first, and nothing is decoded or stored without it.
pub fn notify(context: Option<&mut SessionState>, notification: Notification) -> (outcome: Result<
    bool,
    FatalError,
>)
    ensures
        outcome == delivery(context_view(context), notification@),
        context matches Some(session) ==> final(session)@ == notified(session@, notification@),
{
    match context {
        Some(session) => match build_result(notification) {
            Ok(result) => Ok(session.try_complete(result)),
            Err(e) => Err(e),
        },
        None => Err(FatalError::ContextMissing),
    }
}

/// A notification that arrives without session is fatal, whatever it holds.
/// No session is offered its result: the delivery has none to change.
pub proof fn lemma_absent_context_is_fatal(n: NotificationView)
    ensures
        delivery(None, n) == Err::<bool, FatalError>(FatalError::ContextMissing),
{
}

/// A delivery that fails leaves the session as it was, and so does a
/// duplicate: only the first notification with a hostname changes a session.
pub proof fn lemma_only_first_delivery_changes(session: SessionView, n: NotificationView)
    ensures
        delivery(Some(session), n) != Ok::<bool, FatalError>(true) ==> notified(session, n)
            == session,
        delivery(Some(session), n) == Ok::<bool, FatalError>(true) ==> notified(session, n).result
            == reported(n) && notified(session, n).completed,
{
}

/// Of two notifications delivered in a row, the second changes nothing once
/// the first has named a hostname: it is answered as a duplicate, and the
/// session keeps what the first delivery left in it.
pub proof fn lemma_second_notification_is_dropped(
    session: SessionView,
    first: NotificationView,
    second: NotificationView,
)
    requires
        first.hostname is Some,
    ensures
        notified(notified(session, first), second) == notified(session, first),
        second.hostname is Some ==> delivery(Some(notified(session, first)), second) == Ok::<
            bool,
            FatalError,
        >(false),
        session.accepts() ==> notified(notified(session, first), second).result == reported(first),
{
}

} // verus!
