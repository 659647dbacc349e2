use std::time::Duration;
use websitestatuschecker::probe::{
    default_timeout, status_from_exchange, Exchange, DEFAULT_TIMEOUT_SECS, INVALID_STATUS,
    REDIRECTS_FOLLOWED,
};
use websitestatuschecker::status::WebsiteStatus;

fn exactly_one_outcome(record: &WebsiteStatus) -> bool {
    match (&record.status, &record.error) {
        (Ok(code), None) => (100..=599).contains(code),
        (Err(message), Some(error)) => message == error,
        _ => false,
    }
}

#[test]
fn a_200_is_a_success() {
    let record = status_from_exchange(
        "https://example.com/ok",
        Exchange::Response(200),
        Duration::from_millis(40),
    );
    assert_eq!(record.url, "https://example.com/ok");
    assert_eq!(record.status, Ok(200));
    assert_eq!(record.error, None);
    assert_eq!(record.response_time, Duration::from_millis(40));
}

#[test]
fn a_404_is_a_success() {
    let record = status_from_exchange(
        "https://example.com/missing",
        Exchange::Response(404),
        Duration::from_millis(55),
    );
    assert_eq!(record.status, Ok(404));
    assert_eq!(record.error, None);
}

#[test]
fn a_500_is_a_success() {
    let record =
        status_from_exchange("http://a.com", Exchange::Response(500), Duration::from_millis(1));
    assert_eq!(record.status, Ok(500));
    assert_eq!(record.error, None);
}

#[test]
fn a_redirect_is_a_success() {
    let record =
        status_from_exchange("http://a.com", Exchange::Response(301), Duration::from_millis(1));
    assert_eq!(record.status, Ok(301));
    assert_eq!(record.error, None);
}

#[test]
fn the_ends_of_the_range_are_successes() {
    let low = status_from_exchange("http://a.com", Exchange::Response(100), Duration::ZERO);
    assert_eq!(low.status, Ok(100));
    assert_eq!(low.error, None);
    let high = status_from_exchange("http://a.com", Exchange::Response(599), Duration::ZERO);
    assert_eq!(high.status, Ok(599));
    assert_eq!(high.error, None);
}

#[test]
fn a_code_below_the_range_is_a_failure() {
    for code in [0u16, 1, 42, 99] {
        let record = status_from_exchange("http://a.com", Exchange::Response(code), Duration::ZERO);
        assert_eq!(record.status, Err(String::from(INVALID_STATUS)));
        assert_eq!(record.error, Some(String::from(INVALID_STATUS)));
        assert_eq!(record.url, "http://a.com");
    }
}

#[test]
fn a_code_above_the_range_is_a_failure() {
    for code in [600u16, 999, 1000, u16::MAX] {
        let record = status_from_exchange("http://a.com", Exchange::Response(code), Duration::ZERO);
        assert_eq!(record.status, Err(String::from(INVALID_STATUS)));
        assert_eq!(record.error, Some(String::from(INVALID_STATUS)));
    }
}

#[test]
fn a_transport_failure_keeps_its_description() {
    let record = status_from_exchange(
        "http://10.255.255.1",
        Exchange::Failure(String::from("Connection Failed: Connect error: timed out")),
        Duration::from_secs(2),
    );
    assert_eq!(record.url, "http://10.255.255.1");
    assert_eq!(
        record.status,
        Err(String::from("Connection Failed: Connect error: timed out"))
    );
    assert_eq!(
        record.error,
        Some(String::from("Connection Failed: Connect error: timed out"))
    );
    assert_eq!(record.response_time, Duration::from_secs(2));
}

#[test]
fn an_empty_description_is_still_a_failure() {
    let record =
        status_from_exchange("http://a.com", Exchange::Failure(String::new()), Duration::ZERO);
    assert_eq!(record.status, Err(String::new()));
    assert_eq!(record.error, Some(String::new()));
}

#[test]
fn every_record_has_exactly_one_outcome() {
    for code in 0..=u16::MAX {
        let record = status_from_exchange("http://a.com", Exchange::Response(code), Duration::ZERO);
        assert!(exactly_one_outcome(&record));
        assert_eq!(record.status.is_ok(), (100..=599).contains(&code));
    }
    let failed = status_from_exchange(
        "http://a.com",
        Exchange::Failure(String::from("Dns Failed")),
        Duration::ZERO,
    );
    assert!(exactly_one_outcome(&failed));
}

#[test]
fn the_default_timeout_is_five_seconds() {
    assert_eq!(DEFAULT_TIMEOUT_SECS, 5);
    assert_eq!(default_timeout(), Duration::new(5, 0));
    assert_eq!(default_timeout().as_millis(), 5000);
}

#[test]
fn no_redirect_is_followed() {
    assert_eq!(REDIRECTS_FOLLOWED, 0);
}

#[test]
fn a_client_that_gave_up_is_a_failure_like_any_other() {
    let record = status_from_exchange(
        "http://a.com",
        Exchange::Failure(String::from("the HTTP client gave up on the response")),
        Duration::from_millis(3),
    );
    assert_eq!(record.url, "http://a.com");
    assert_eq!(
        record.status,
        Err(String::from("the HTTP client gave up on the response"))
    );
    assert_eq!(
        record.error,
        Some(String::from("the HTTP client gave up on the response"))
    );
    assert!(exactly_one_outcome(&record));
}

#[test]
fn two_probes_of_one_url_give_two_records() {
    let first = status_from_exchange("a.com", Exchange::Response(200), Duration::from_millis(5));
    let second = status_from_exchange(
        "a.com",
        Exchange::Failure(String::from("Dns Failed")),
        Duration::from_millis(9),
    );
    assert_eq!(first.url, second.url);
    assert_eq!(first.status, Ok(200));
    assert_eq!(first.response_time, Duration::from_millis(5));
    assert_eq!(second.status, Err(String::from("Dns Failed")));
    assert_eq!(second.response_time, Duration::from_millis(9));
}
