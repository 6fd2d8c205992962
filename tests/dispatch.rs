use website_checker::dispatch::Dispatch;
use website_checker::queue::WorkQueue;
use website_checker::status::WebsiteStatus;

fn result_for(url: &str, ok: bool) -> WebsiteStatus {
    WebsiteStatus {
        url: url.to_string(),
        status: if ok { Ok(200) } else { Err("down".to_string()) },
        response_time_nanos: 1,
        timestamp_millis: 0,
        headers_valid: false,
    }
}

fn urls(n: usize) -> Vec<String> {
    (0..n).map(|i| format!("http://host{}.test/", i)).collect()
}

#[test]
fn queue_hands_out_each_url_in_order_then_none() {
    let mut q = WorkQueue::new(vec!["a".to_string(), "b".to_string(), "a".to_string()]);
    assert_eq!(q.len(), 3);
    assert_eq!(q.pop_next(), Some("a".to_string()));
    assert_eq!(q.pop_next(), Some("b".to_string()));
    assert_eq!(q.pop_next(), Some("a".to_string()));
    assert_eq!(q.taken_len(), 3);
    assert_eq!(q.pop_next(), None);
    assert_eq!(q.pop_next(), None);
    assert!(q.url_is(1, &"b".to_string()));
    assert!(!q.url_is(1, &"a".to_string()));
}

#[test]
fn empty_queue_gives_none() {
    let mut q = WorkQueue::new(Vec::new());
    assert_eq!(q.pop_next(), None);
    let mut d = Dispatch::new(Vec::new());
    assert_eq!(d.take(), None);
    assert!(d.is_complete());
    assert!(d.into_results().is_empty());
}

#[test]
fn eight_workers_take_each_of_hundred_urls_once() {
    let input = urls(100);
    let mut d = Dispatch::new(input.clone());
    let mut held: Vec<Vec<(usize, String)>> = vec![Vec::new(); 8];
    let mut active = vec![true; 8];
    // workers take in turn until each sees the queue empty
    while active.iter().any(|a| *a) {
        for w in 0..8 {
            if active[w] {
                match d.take() {
                    Some(job) => held[w].push(job),
                    None => active[w] = false,
                }
            }
        }
    }
    let mut seen = vec![0usize; 100];
    for jobs in &held {
        for (ticket, url) in jobs {
            assert_eq!(url, &input[*ticket]);
            seen[*ticket] += 1;
        }
    }
    assert!(seen.iter().all(|c| *c == 1));
    for jobs in held {
        for (ticket, url) in jobs {
            assert!(d.deliver(ticket, result_for(&url, true)));
        }
    }
    assert!(d.is_complete());
    let results = d.into_results();
    assert_eq!(results.len(), 100);
    for (r, u) in results.iter().zip(input.iter()) {
        assert_eq!(&r.url, u);
    }
}

#[test]
fn ten_workers_on_three_urls_all_stop() {
    let mut d = Dispatch::new(urls(3));
    let mut stopped = 0;
    let mut jobs = Vec::new();
    for _ in 0..10 {
        match d.take() {
            Some(job) => jobs.push(job),
            None => stopped += 1,
        }
    }
    assert_eq!(jobs.len(), 3);
    assert_eq!(stopped, 7);
    // a worker that comes back after its job finds nothing left either
    for _ in 0..3 {
        assert_eq!(d.take(), None);
    }
}

#[test]
fn duplicates_get_separate_results() {
    let input = vec!["http://x.test".to_string(), "http://x.test".to_string()];
    let mut d = Dispatch::new(input);
    let (t0, u0) = d.take().unwrap();
    let (t1, u1) = d.take().unwrap();
    assert_eq!((t0, t1), (0, 1));
    assert!(d.deliver(t1, result_for(&u1, false)));
    assert!(!d.is_complete());
    assert!(d.deliver(t0, result_for(&u0, true)));
    assert!(d.is_complete());
    let results = d.into_results();
    assert_eq!(results.len(), 2);
    assert_eq!(results[0].status, Ok(200));
    assert_eq!(results[1].status, Err("down".to_string()));
}

#[test]
fn slot_refuses_wrong_deliveries() {
    let mut d = Dispatch::new(vec!["http://a.test".to_string(), "http://b.test".to_string()]);
    // ticket not handed out yet
    assert!(!d.deliver(0, result_for("http://a.test", true)));
    let (t, u) = d.take().unwrap();
    // result for another URL
    assert!(!d.deliver(t, result_for("http://b.test", true)));
    // ticket out of range
    assert!(!d.deliver(7, result_for("http://a.test", true)));
    assert!(d.deliver(t, result_for(&u, true)));
    // slot already filled
    assert!(!d.deliver(t, result_for(&u, false)));
    // a lost worker leaves its URL without a result
    let _ = d.take().unwrap();
    assert!(!d.is_complete());
    let results = d.into_results();
    assert_eq!(results.len(), 1);
    assert_eq!(results[0].status, Ok(200));
}
