use calendar_scraper::cache::ClaimOutcome;
use calendar_scraper::fetch::FetchError;
use calendar_scraper::resolver::AddressResolver;
use calendar_scraper::resolver::ResolveError;
use calendar_scraper::resolver::ResolveStep;

#[test]
fn single_flight_one_fetch_shared_result() {
    // Two callers for the same normalized URL: the second is told to wait,
    // the first resolves, and everyone — including later callers — reads
    // the one value with no further fetch.
    let mut r = AddressResolver::new();
    let mut fetches: u32 = 0;
    let (mut job1, step1) = r.start("https://siteA.test", "/Venue/Map/1");
    match step1 {
        ResolveStep::Fetch => fetches += 1,
        _ => panic!("first caller should fetch"),
    }
    let (job2, step2) = r.start("https://siteA.test", "/Venue/Map/1");
    assert_eq!(step2, ResolveStep::Wait);
    assert_eq!(job2.cur, job1.cur);
    // a premature wake-up finds the claim still held and waits again
    assert_eq!(r.awake(&job2), ResolveStep::Wait);
    let addr = String::from("728 Mountain St, Haliburton, ON");
    let done = r.on_content(&mut job1, Some(addr.clone()));
    assert_eq!(done, ResolveStep::Done(addr.clone()));
    // the waiter wakes and hits
    assert_eq!(r.awake(&job2), ResolveStep::Done(addr.clone()));
    // a later caller hits too
    let (_job3, step3) = r.start("https://siteA.test", "/Venue/Map/1");
    assert_eq!(step3, ResolveStep::Done(addr));
    assert_eq!(fetches, 1);
    assert_eq!(r.total_addresses(), 1);
}

#[test]
fn single_flight_three_callers_one_fetch() {
    // three concurrent callers: one fetches, the other two wait and then
    // read the same value
    let mut r = AddressResolver::new();
    let (mut job1, step1) = r.start("https://siteA.test", "/Venue/Map/2");
    assert_eq!(step1, ResolveStep::Fetch);
    let (job2, step2) = r.start("https://siteA.test", "/Venue/Map/2");
    let (job3, step3) = r.start("https://siteA.test", "/Venue/Map/2");
    assert_eq!(step2, ResolveStep::Wait);
    assert_eq!(step3, ResolveStep::Wait);
    let addr = String::from("2 Rink Rd");
    r.on_content(&mut job1, Some(addr.clone()));
    assert_eq!(r.awake(&job2), ResolveStep::Done(addr.clone()));
    assert_eq!(r.awake(&job3), ResolveStep::Done(addr));
    assert_eq!(r.total_addresses(), 1);
}

#[test]
fn monotonic_ready_value_never_changes() {
    let mut r = AddressResolver::new();
    let (mut job, step) = r.start("https://siteA.test", "/V/1");
    assert_eq!(step, ResolveStep::Fetch);
    let first = String::from("1 First St");
    r.on_content(&mut job, Some(first.clone()));
    // a write-through aimed at the ready entry leaves its value alone
    let second = String::from("2 Second St");
    r.cache.write_through(job.cur, &second);
    match r.cache.try_claim(job.cur) {
        ClaimOutcome::Hit(v) => assert_eq!(v, first),
        _ => panic!("entry must stay ready"),
    }
}

#[test]
fn redirect_write_through_both_keys_resolve() {
    // Key A redirects to key B; B resolves; both A and B afterwards answer
    // the same value without any further fetch.
    let mut r = AddressResolver::new();
    let (mut job, step) = r.start("https://maps.test", "https://maps.test/Venue/123");
    assert_eq!(step, ResolveStep::Fetch);
    let target = String::from("https://maps.test/Venue/Map/10566");
    let hop = r.on_redirect(&mut job, &target);
    assert_eq!(hop, ResolveStep::Fetch);
    assert_eq!(job.url, target);
    let addr = String::from("728 Mountain St, Haliburton, ON");
    let done = r.on_content(&mut job, Some(addr.clone()));
    assert_eq!(done, ResolveStep::Done(addr.clone()));
    let (_j, by_a) = r.start("https://maps.test", "https://maps.test/Venue/123");
    assert_eq!(by_a, ResolveStep::Done(addr.clone()));
    let (_j, by_b) = r.start("https://maps.test", "https://maps.test/Venue/Map/10566");
    assert_eq!(by_b, ResolveStep::Done(addr));
}

#[test]
fn redirect_to_resolved_key_hits_without_fetch() {
    // B is already resolved; a chain from A that is redirected to B takes
    // B's value straight from the cache. Only the fast path ran for B, so
    // A's own entry stays in flight for a later resolve.
    let mut r = AddressResolver::new();
    let (mut jb, sb) = r.start("https://maps.test", "https://maps.test/Venue/B");
    assert_eq!(sb, ResolveStep::Fetch);
    let addr = String::from("9 Ninth Ave");
    r.on_content(&mut jb, Some(addr.clone()));
    let (mut ja, sa) = r.start("https://maps.test", "https://maps.test/Venue/A");
    assert_eq!(sa, ResolveStep::Fetch);
    let hop = r.on_redirect(&mut ja, &String::from("https://maps.test/Venue/B"));
    assert_eq!(hop, ResolveStep::Done(addr));
    let (_j, again) = r.start("https://maps.test", "https://maps.test/Venue/A");
    assert_eq!(again, ResolveStep::Fetch);
}

#[test]
fn captcha_short_circuit_no_entry_no_fetch() {
    let mut r = AddressResolver::new();
    let (mut job, step) = r.start("https://maps.test", "https://maps.test/Venue/123");
    assert_eq!(step, ResolveStep::Fetch);
    let before = r.total_addresses();
    let hop = r.on_redirect(&mut job, &String::from("https://maps.test/Human/verify"));
    assert_eq!(hop, ResolveStep::Fail(ResolveError::CaptchaPresented));
    // no cache entry was created for the verification page
    assert_eq!(r.total_addresses(), before);
}

#[test]
fn concurrent_captcha_both_fail_two_transport_calls() {
    // Two concurrent resolutions of the same URL whose fetch answers with a
    // redirect to the verification page: both callers receive the captcha
    // failure. The waiter re-fetches after the first gives up (redirect
    // chains are not deduplicated), so the transport sees exactly two calls.
    let mut r = AddressResolver::new();
    let mut transport_calls: u32 = 0;
    let (mut job1, step1) = r.start("https://maps.test", "https://maps.test/Venue/123");
    assert_eq!(step1, ResolveStep::Fetch);
    let (mut job2, step2) = r.start("https://maps.test", "https://maps.test/Venue/123");
    assert_eq!(step2, ResolveStep::Wait);
    transport_calls += 1; // first caller's GET answers with the redirect
    let target = String::from("https://maps.test/Human/verify");
    assert_eq!(
        r.on_redirect(&mut job1, &target),
        ResolveStep::Fail(ResolveError::CaptchaPresented)
    );
    // the waiter wakes, finds the entry still unresolved, and fetches
    assert_eq!(r.awake(&job2), ResolveStep::Fetch);
    transport_calls += 1; // its GET answers with the same redirect
    assert_eq!(
        r.on_redirect(&mut job2, &target),
        ResolveStep::Fail(ResolveError::CaptchaPresented)
    );
    assert_eq!(transport_calls, 2);
    assert_eq!(r.total_addresses(), 1);
}

#[test]
fn extraction_failure_remote_retries_then_fails() {
    let mut r = AddressResolver::new();
    let (mut job, step) = r.start("https://maps.test", "https://maps.test/Venue/9");
    assert_eq!(step, ResolveStep::Fetch);
    assert!(!job.is_local);
    assert_eq!(r.on_content(&mut job, None), ResolveStep::FetchRetry);
    assert_eq!(r.on_content(&mut job, None), ResolveStep::FetchRetry);
    assert_eq!(
        r.on_content(&mut job, None),
        ResolveStep::Fail(ResolveError::ExtractionFailed)
    );
    // the entry is not poisoned: a later caller may try again
    let (_j, again) = r.start("https://maps.test", "https://maps.test/Venue/9");
    assert_eq!(again, ResolveStep::Fetch);
}

#[test]
fn extraction_failure_local_surfaces_at_once() {
    let mut r = AddressResolver::new();
    let (mut job, step) = r.start("https://siteA.test", "/Venue/Map/5");
    assert_eq!(step, ResolveStep::Fetch);
    assert!(job.is_local);
    assert_eq!(
        r.on_content(&mut job, None),
        ResolveStep::Fail(ResolveError::ExtractionFailed)
    );
}

#[test]
fn fetch_error_releases_entry_for_retry() {
    let mut r = AddressResolver::new();
    let (mut job, step) = r.start("https://siteA.test", "/Venue/Map/7");
    assert_eq!(step, ResolveStep::Fetch);
    assert_eq!(
        r.on_fetch_error(&mut job, FetchError::FetchFailed),
        ResolveStep::Fail(ResolveError::FetchFailed)
    );
    let (_j, again) = r.start("https://siteA.test", "/Venue/Map/7");
    assert_eq!(again, ResolveStep::Fetch);
}

#[test]
fn fetch_error_invalid_url_maps_through() {
    let mut r = AddressResolver::new();
    let (mut job, _step) = r.start("nonsense", "also-nonsense");
    assert_eq!(
        r.on_fetch_error(&mut job, FetchError::InvalidUrl),
        ResolveStep::Fail(ResolveError::InvalidUrl)
    );
}
