//! The notice that the interval has expired.

use vstd::prelude::*;

verus! {

/// The name under which notifications are shown.
pub const APP_NAME: &'static str = "paradajz";

/// The text of the notification that an interval has expired.
pub const EXPIRY_MESSAGE: &'static str = "Interval expired.";

/// How long the expiry notification stays, in milliseconds; zero keeps it
/// until it is dismissed.
pub const EXPIRY_TIMEOUT_MS: u64 = 0;

/// Shows notifications through a deliverer that the caller supplies.
pub struct Notificator {}

/// The report on a notification, by whether it was delivered.
pub open spec fn report_of(delivered: bool) -> Result<&'static str, &'static str> {
    if delivered {
        Ok("notification displayed")
    } else {
        Err("error displaying notification")
    }
}

impl Notificator {
    /// Hands `text` and `timeout_ms` to `deliver`, which shows the
    /// notification and says whether it could, and reports the outcome.
    pub fn show_notification<D: FnOnce(&str, u64) -> bool>(
        text: &str,
        timeout_ms: u64,
        deliver: D,
    ) -> (report: Result<&'static str, &'static str>)
        requires
            call_requires(deliver, (text, timeout_ms)),
        ensures
            exists|delivered: bool| #[trigger]
                call_ensures(deliver, (text, timeout_ms), delivered) && report == report_of(
                    delivered,
                ),
    {
        let delivered = deliver(text, timeout_ms);
        if delivered {
            Ok("notification displayed")
        } else {
            Err("error displaying notification")
        }
    }
}

} // verus!
