use std::time::Duration;
use websitestatuschecker::status::{WebsiteStatus, STATUS_MAX, STATUS_MIN};

#[test]
fn new_keeps_a_success_as_given() {
    let record = WebsiteStatus::new(
        String::from("http://www.example.com"),
        Ok(200),
        Duration::from_millis(125),
        None,
    );
    assert_eq!(record.url, "http://www.example.com");
    assert_eq!(record.status, Ok(200));
    assert_eq!(record.response_time, Duration::from_millis(125));
    assert_eq!(record.error, None);
}

#[test]
fn new_keeps_a_failure_as_given() {
    let record = WebsiteStatus::new(
        String::from("http://10.255.255.1"),
        Err(String::from("timed out")),
        Duration::from_secs(2),
        Some(String::from("timed out")),
    );
    assert_eq!(record.url, "http://10.255.255.1");
    assert_eq!(record.status, Err(String::from("timed out")));
    assert_eq!(record.response_time, Duration::from_secs(2));
    assert_eq!(record.error, Some(String::from("timed out")));
}

#[test]
fn new_keeps_an_empty_url() {
    let record = WebsiteStatus::new(String::new(), Ok(204), Duration::ZERO, None);
    assert_eq!(record.url, "");
    assert_eq!(record.status, Ok(204));
    assert_eq!(record.response_time, Duration::ZERO);
}

#[test]
fn status_range_is_that_of_http() {
    assert_eq!(STATUS_MIN, 100);
    assert_eq!(STATUS_MAX, 599);
}

#[test]
fn record_prints_its_fields() {
    let record =
        WebsiteStatus::new(String::from("http://a.com"), Ok(301), Duration::from_millis(7), None);
    let text = format!("{:?}", record);
    assert!(text.contains("WebsiteStatus"));
    assert!(text.contains("http://a.com"));
    assert!(text.contains("301"));
}
