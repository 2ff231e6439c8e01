//! The rate limit of requests to the site, from the reader's settings.

use crate::text::same_text;
use vstd::prelude::*;

verus! {

/// How many requests may be sent in how many seconds.
#[derive(Debug, Clone, Copy, PartialEq, Eq, Structural)]
pub struct RateLimit {
    pub requests: i32,
    pub period: i32,
}

/// The value of a setting: the stored integer where one is stored and fits
/// the limit's type, else five.
pub open spec fn setting_or_default(stored: Option<i64>) -> int {
    match stored {
        Some(v) if i32::MIN <= v <= i32::MAX => v as int,
        _ => 5,
    }
}

/// The value of a setting.
fn setting(stored: Option<i64>) -> (value: i32)
    ensures
        value == setting_or_default(stored),
{
    match stored {
        Some(v) => match i32::try_from(v) {
            Ok(value) => value,
            Err(_) => 5,
        },
        None => 5,
    }
}

/// The rate limit to apply, from what is stored under the settings
/// `requests` and `period`.
pub fn change_rate_limit(requests: Option<i64>, period: Option<i64>) -> (limit: RateLimit)
    ensures
        limit.requests == setting_or_default(requests),
        limit.period == setting_or_default(period),
{
    RateLimit { requests: setting(requests), period: setting(period) }
}

/// Whether a notification tells that a setting of the rate limit has
/// changed, so that the limit is to be applied anew.
pub fn handle_notification(notification: &str) -> (changed: bool)
    ensures
        changed == (notification@ == "changeRequests"@ || notification@ == "changePeriod"@),
{
    same_text(notification, "changeRequests") || same_text(notification, "changePeriod")
}

} // verus!
