use website_checker::config::{url_lines, Config};
use website_checker::status::WebsiteStatus;
use website_checker::summary::summarize;

fn result(ok: bool, nanos: u64) -> WebsiteStatus {
    WebsiteStatus {
        url: "http://s.test".to_string(),
        status: if ok { Ok(200) } else { Err("down".to_string()) },
        response_time_nanos: nanos,
        timestamp_millis: 0,
        headers_valid: false,
    }
}

#[test]
fn summary_of_no_results_is_all_zero() {
    let s = summarize(&Vec::new());
    assert_eq!((s.total, s.successes, s.failures, s.average_response_nanos), (0, 0, 0, 0));
}

#[test]
fn summary_counts_and_averages() {
    let s = summarize(&vec![result(true, 100), result(false, 200), result(true, 301)]);
    assert_eq!(s.total, 3);
    assert_eq!(s.successes, 2);
    assert_eq!(s.failures, 1);
    assert_eq!(s.average_response_nanos, 200);
}

#[test]
fn summary_average_of_largest_times_fits() {
    let s = summarize(&vec![result(true, u64::MAX), result(true, u64::MAX)]);
    assert_eq!(s.average_response_nanos, u64::MAX);
}

#[test]
fn url_lines_are_trimmed_and_blank_ones_dropped() {
    let lines = vec![
        "http://a.test".to_string(),
        "".to_string(),
        "   ".to_string(),
        "  http://b.test \t".to_string(),
        "http://a.test".to_string(),
    ];
    assert_eq!(url_lines(&lines), vec!["http://a.test", "http://b.test", "http://a.test"]);
    assert!(url_lines(&Vec::new()).is_empty());
}

#[test]
fn config_defaults_and_worker_floor() {
    let c = Config::from_options(None, None, None);
    assert_eq!((c.worker_count, c.timeout_secs, c.max_retries), (4, 5, 3));
    let c = Config::from_options(Some(0), Some(2), Some(0));
    assert_eq!((c.worker_count, c.timeout_secs, c.max_retries), (1, 2, 0));
    let c = Config::from_options(Some(8), None, Some(9));
    assert_eq!((c.worker_count, c.timeout_secs, c.max_retries), (8, 5, 9));
}
