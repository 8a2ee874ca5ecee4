use vstd::prelude::*;

use crate::notification::{DispatchOutcome, Edit, Notification, NotificationModel};
use crate::timeout::Timeout;

verus! {

/// Status and message of a reply of the HTTP API; the message is sent as the
/// `message` field of a JSON object.
#[derive(Debug, Clone, PartialEq, Eq)]
pub struct Reply {
    pub status: u16,
    pub message: String,
}

/// Message of the liveness check.
pub open spec fn health_text() -> Seq<char> {
    "Backend is running!"@
}

/// Message that greets `name`.
pub open spec fn greeting(name: Seq<char>) -> Seq<char> {
    "Hello, "@ + name + "!"@
}

/// Summary and body of the fixed notification.
pub open spec fn demo_summary() -> Seq<char> {
    "Notificable Purr"@
}

pub open spec fn demo_body() -> Seq<char> {
    "This is a test notification from the backend!"@
}

/// Messages that report what became of a notification.
pub open spec fn sent_text() -> Seq<char> {
    "Notification sent!"@
}

pub open spec fn failed_prefix() -> Seq<char> {
    "Notification failed: "@
}

pub open spec fn unsupported_text() -> Seq<char> {
    "Notifications are not supported on this host"@
}

/// The reply to a request that the notification be shown, given what became of it:
/// 200 when delivered, 502 when delivery failed, 501 when this build cannot show any.
pub open spec fn notify_reply_spec(o: DispatchOutcome) -> (u16, Seq<char>) {
    match o {
        DispatchOutcome::Delivered => (200, sent_text()),
        DispatchOutcome::DeliveryFailed(reason) => (502, failed_prefix() + reason@),
        DispatchOutcome::Unsupported => (501, unsupported_text()),
    }
}

/// Reply of the liveness check.
pub fn health() -> (r: Reply)
    ensures
        r.status == 200,
        r.message@ == health_text(),
{
    Reply { status: 200, message: String::from_str("Backend is running!") }
}

/// Reply that greets `name`.
pub fn hello(name: &str) -> (r: Reply)
    ensures
        r.status == 200,
        r.message@ == greeting(name@),
{
    let message = String::from_str("Hello, ").concat(name).concat("!");
    Reply { status: 200, message }
}

/// The fixed notification that the API shows on request.
pub fn demo_notification() -> (r: Notification)
    ensures
        r@ == NotificationModel::empty().apply(Edit::Summary(demo_summary())).apply(
            Edit::Body(demo_body()),
        ),
        r@.timeout == Timeout::Default,
{
    let mut n = Notification::new();
    n.summary("Notificable Purr").body("This is a test notification from the backend!");
    n
}

/// The reply that reports `outcome` to the caller.
pub fn notify_reply(outcome: &DispatchOutcome) -> (r: Reply)
    ensures
        (r.status, r.message@) == notify_reply_spec(*outcome),
{
    match outcome {
        DispatchOutcome::Delivered => Reply { status: 200, message: String::from_str("Notification sent!") },
        DispatchOutcome::DeliveryFailed(reason) => Reply {
            status: 502,
            message: String::from_str("Notification failed: ").concat(reason.as_str()),
        },
        DispatchOutcome::Unsupported => Reply {
            status: 501,
            message: String::from_str("Notifications are not supported on this host"),
        },
    }
}

/// Shows the fixed notification and replies with what became of it.
pub fn notify() -> (r: Reply)
    ensures
        (r.status, r.message@) == notify_reply_spec(DispatchOutcome::Unsupported),
{
    let outcome = demo_notification().show();
    notify_reply(&outcome)
}

} // verus!
