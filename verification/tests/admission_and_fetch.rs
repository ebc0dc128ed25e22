use calendar_scraper::admission::AdmissionControl;
use calendar_scraper::fetch::AttemptError;
use calendar_scraper::fetch::FetchConfig;
use calendar_scraper::fetch::FetchError;
use calendar_scraper::fetch::FetchProgress;
use calendar_scraper::fetch::Response;
use calendar_scraper::fetch::start_fetch;
use calendar_scraper::metrics::RequestMetrics;

#[test]
fn admission_per_host_bound() {
    // Load past the per-host cap: the host pool refuses the third request
    // while two are outstanding, and admits again after one leaves.
    let mut a = AdmissionControl::new(10, 2);
    let host = String::from("maps.test");
    assert!(a.try_enter(&host));
    assert!(a.try_enter(&host));
    assert!(!a.try_enter(&host));
    a.exit(&host);
    assert!(a.try_enter(&host));
    assert!(!a.try_enter(&host));
}

#[test]
fn admission_global_bound_across_hosts() {
    let mut a = AdmissionControl::new(1, 10);
    let h1 = String::from("a.test");
    let h2 = String::from("b.test");
    assert!(a.try_enter(&h1));
    assert!(!a.try_enter(&h2));
    a.exit(&h1);
    assert!(a.try_enter(&h2));
}

#[test]
fn admission_refused_global_changes_nothing() {
    let mut a = AdmissionControl::new(0, 5);
    let h = String::from("a.test");
    assert!(!a.try_enter(&h));
    assert_eq!(a.global.in_use, 0);
}

#[test]
fn fetch_config_defaults() {
    let c = FetchConfig::new();
    assert_eq!(c.global_cap, 80);
    assert_eq!(c.per_host_cap, 10);
    assert_eq!(c.max_retries, 3);
    assert_eq!(c.timeout_secs, 120);
    assert_eq!(c.connect_timeout_secs, 10);
    assert_eq!(c.retry_delay_secs, 2);
}

#[test]
fn fetch_invalid_url_is_refused_before_any_attempt() {
    let cfg = FetchConfig::new();
    let r = start_fetch("/relative/only", &cfg);
    assert_eq!(r.unwrap_err(), FetchError::InvalidUrl);
}

#[test]
fn fetch_extracts_host() {
    let cfg = FetchConfig::new();
    let job = start_fetch("https://maps.test/Venue/123?x=1", &cfg).unwrap();
    assert_eq!(job.host, "maps.test");
    assert_eq!(job.url, "https://maps.test/Venue/123?x=1");
    assert_eq!(job.attempts, 0);
}

#[test]
fn retry_bound_permanent_failure() {
    // A URL that fails at transport level on every attempt: exactly
    // 1 + max_retries attempts, then the permanent failure, and the
    // metrics record every one of them.
    let cfg = FetchConfig::new();
    let mut job = start_fetch("https://down.test/page", &cfg).unwrap();
    let mut m = RequestMetrics::new();
    let mut attempts: u64 = 0;
    let outcome = loop {
        job.begin_attempt(&mut m);
        attempts += 1;
        match job.on_attempt_error(&mut m, AttemptError::Transport) {
            FetchProgress::RetryAfterDelay => continue,
            FetchProgress::RetryNow => unreachable!(),
            FetchProgress::Failed => break FetchError::FetchFailed,
        }
    };
    assert_eq!(outcome, FetchError::FetchFailed);
    assert_eq!(attempts, 1 + cfg.max_retries);
    assert_eq!(m.summary(), (4, 3, 1));
}

#[test]
fn body_read_error_retries_at_once() {
    let cfg = FetchConfig::new();
    let mut job = start_fetch("https://flaky.test/page", &cfg).unwrap();
    let mut m = RequestMetrics::new();
    job.begin_attempt(&mut m);
    let p = job.on_attempt_error(&mut m, AttemptError::BodyRead);
    assert_eq!(p, FetchProgress::RetryNow);
    assert_eq!(m.summary(), (1, 0, 0));
}

#[test]
fn redirect_location_is_rebased_and_stripped() {
    let cfg = FetchConfig::new();
    let job = start_fetch("https://maps.test/Venue/123", &cfg).unwrap();
    let r = job.on_redirect_response("/Venue/Map/10566?day=19&month=12").unwrap();
    match r {
        Response::Redirect(u) => assert_eq!(u, "https://maps.test/Venue/Map/10566"),
        Response::Content(_) => panic!("expected a redirect"),
    }
}

#[test]
fn redirect_target_drops_the_request_urls_own_query() {
    // the target is scheme, host and path alone: neither the location's
    // query nor the query the request URL itself carried survives
    let cfg = FetchConfig::new();
    let job = start_fetch("https://maps.test/Venue/123?day=19&body=9", &cfg).unwrap();
    let r = job.on_redirect_response("/Venue/Map/10?x=1").unwrap();
    match r {
        Response::Redirect(u) => assert_eq!(u, "https://maps.test/Venue/Map/10"),
        Response::Content(_) => panic!("expected a redirect"),
    }
}

#[test]
fn cached_client_config_defaults() {
    let c = FetchConfig::cached();
    assert_eq!(c.global_cap, 50);
    assert_eq!(c.per_host_cap, 3);
    assert_eq!(c.max_retries, 0);
    assert_eq!(c.timeout_secs, 120);
    assert_eq!(c.connect_timeout_secs, 30);
}

#[test]
fn retry_tallies_accumulate_across_fetches() {
    // the metrics are process-wide: a second permanently failing fetch
    // raises the tallies from where the first left them
    let cfg = FetchConfig::new();
    let mut m = RequestMetrics::new();
    for _ in 0..2 {
        let mut job = start_fetch("https://down.test/page", &cfg).unwrap();
        loop {
            job.begin_attempt(&mut m);
            if let FetchProgress::Failed = job.on_attempt_error(&mut m, AttemptError::Transport)
            {
                break;
            }
        }
    }
    assert_eq!(m.summary(), (8, 6, 2));
}
