use backend::api::{demo_notification, health, hello, notify, notify_reply};
use backend::notification::DispatchOutcome;
use backend::timeout::Timeout;

#[test]
fn health_reply() {
    let r = health();
    assert_eq!(r.status, 200);
    assert_eq!(r.message, "Backend is running!");
}

#[test]
fn hello_reply() {
    let r = hello("Ada");
    assert_eq!(r.status, 200);
    assert_eq!(r.message, "Hello, Ada!");
    assert_eq!(hello("").message, "Hello, !");
}

#[test]
fn demo_notification_fields() {
    let n = demo_notification();
    assert_eq!(n.summary, "Notificable Purr");
    assert_eq!(n.body, "This is a test notification from the backend!");
    assert_eq!(n.timeout, Timeout::Default);
    assert_eq!(n.subtitle, None);
}

#[test]
fn replies_for_each_outcome() {
    let r = notify_reply(&DispatchOutcome::Delivered);
    assert_eq!((r.status, r.message.as_str()), (200, "Notification sent!"));
    let r = notify_reply(&DispatchOutcome::DeliveryFailed("no daemon".to_string()));
    assert_eq!((r.status, r.message.as_str()), (502, "Notification failed: no daemon"));
    let r = notify_reply(&DispatchOutcome::Unsupported);
    assert_eq!(r.status, 501);
    assert_eq!(r.message, "Notifications are not supported on this host");
}

#[test]
fn notify_reports_unsupported_build() {
    let r = notify();
    assert_eq!(r.status, 501);
    assert_eq!(r.message, "Notifications are not supported on this host");
}
