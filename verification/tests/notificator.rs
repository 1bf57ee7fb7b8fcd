use paradajz::notificator::{Notificator, APP_NAME, EXPIRY_MESSAGE, EXPIRY_TIMEOUT_MS};
use std::cell::RefCell;

#[test]
fn delivered_notification_is_reported() {
    let report = Notificator::show_notification("hello", 5, |_, _| true);
    assert_eq!(report, Ok("notification displayed"));
}

#[test]
fn failed_notification_is_reported() {
    let report = Notificator::show_notification("hello", 5, |_, _| false);
    assert_eq!(report, Err("error displaying notification"));
}

#[test]
fn deliverer_gets_the_text_and_the_timeout() {
    let seen: RefCell<Vec<(String, u64)>> = RefCell::new(Vec::new());
    let report = Notificator::show_notification(EXPIRY_MESSAGE, EXPIRY_TIMEOUT_MS, |text, timeout| {
        seen.borrow_mut().push((text.to_string(), timeout));
        true
    });
    assert!(report.is_ok());
    assert_eq!(*seen.borrow(), vec![("Interval expired.".to_string(), 0)]);
}

#[test]
fn notification_constants() {
    assert_eq!(APP_NAME, "paradajz");
    assert_eq!(EXPIRY_MESSAGE, "Interval expired.");
    assert_eq!(EXPIRY_TIMEOUT_MS, 0);
}
