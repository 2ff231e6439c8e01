use yandanshe::setting::{RateLimit, change_rate_limit, handle_notification};

#[test]
fn missing_settings_default_to_five() {
    assert_eq!(change_rate_limit(None, None), RateLimit { requests: 5, period: 5 });
}

#[test]
fn stored_settings_are_taken() {
    assert_eq!(change_rate_limit(Some(10), Some(60)), RateLimit { requests: 10, period: 60 });
    assert_eq!(change_rate_limit(Some(0), None), RateLimit { requests: 0, period: 5 });
    assert_eq!(change_rate_limit(None, Some(-1)), RateLimit { requests: 5, period: -1 });
    assert_eq!(
        change_rate_limit(Some(2147483647), Some(-2147483648)),
        RateLimit { requests: i32::MAX, period: i32::MIN }
    );
}

#[test]
fn settings_that_do_not_fit_default_to_five() {
    assert_eq!(
        change_rate_limit(Some(2147483648), Some(-2147483649)),
        RateLimit { requests: 5, period: 5 }
    );
    assert_eq!(
        change_rate_limit(Some(i64::MAX), Some(i64::MIN)),
        RateLimit { requests: 5, period: 5 }
    );
}

#[test]
fn rate_limit_notifications_are_recognised() {
    assert!(handle_notification("changeRequests"));
    assert!(handle_notification("changePeriod"));
}

#[test]
fn other_notifications_change_nothing() {
    assert!(!handle_notification("changeLanguage"));
    assert!(!handle_notification("changerequests"));
    assert!(!handle_notification(""));
}
