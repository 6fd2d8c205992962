use website_checker::retry::Retry;
use website_checker::status::WebsiteStatus;

fn attempt(ok: bool, n: u64) -> WebsiteStatus {
    WebsiteStatus {
        url: "http://r.test".to_string(),
        status: if ok { Ok(200) } else { Err(format!("attempt {}", n)) },
        response_time_nanos: n,
        timestamp_millis: 0,
        headers_valid: false,
    }
}

/// Drives a retry sequence with the given outcomes; returns the attempts made
/// and the final result.
fn drive(max_retries: usize, outcomes: &[bool]) -> (usize, WebsiteStatus) {
    let mut retry = Retry::new(max_retries);
    let mut made = 0;
    while !retry.is_finished() {
        let ok = outcomes[made];
        made += 1;
        retry.record(attempt(ok, made as u64));
    }
    (made, retry.into_result())
}

#[test]
fn always_failing_endpoint_gets_max_retries_plus_one_attempts() {
    let (made, result) = drive(3, &[false; 10]);
    assert_eq!(made, 4);
    // the last attempt's result is kept
    assert_eq!(result.status, Err("attempt 4".to_string()));
    assert_eq!(result.response_time_nanos, 4);
}

#[test]
fn zero_retries_means_one_attempt() {
    let (made, result) = drive(0, &[false; 3]);
    assert_eq!(made, 1);
    assert!(result.status.is_err());
}

#[test]
fn fail_then_succeed_takes_two_attempts() {
    let (made, result) = drive(3, &[false, true, false, false]);
    assert_eq!(made, 2);
    assert_eq!(result.status, Ok(200));
    assert_eq!(result.response_time_nanos, 2);
}

#[test]
fn first_success_stops_at_once() {
    let (made, result) = drive(5, &[true, false]);
    assert_eq!(made, 1);
    assert_eq!(result.status, Ok(200));
}
