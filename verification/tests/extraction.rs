use calendar_scraper::extract::scrape_local_address;
use calendar_scraper::extract::scrape_remote_address;
use calendar_scraper::resolver::AddressResolver;
use calendar_scraper::resolver::ResolveStep;

fn remote_page(first: &str, second: &str) -> String {
    let mut s = String::new();
    s.push_str("<html><body><div class=\"bg_primary\"><div><div><div>");
    s.push_str("<h2><small>");
    s.push_str(first);
    s.push_str("</small></h2>");
    s.push_str("<h2><small>");
    s.push_str(second);
    s.push_str("</small></h2>");
    s.push_str("</div></div></div></div></body></html>");
    s
}

fn local_page(address: &str) -> String {
    let mut s = String::new();
    s.push_str("<html><body><div class=\"callout\"><div><div><a href=\"#\">Venue</a>");
    s.push_str(address);
    s.push_str("</div></div></div></body></html>");
    s
}

#[test]
fn test_scrape_remote_address() {
    let contents = remote_page("Venue Name", "728 Mountain St, Haliburton, ON  ");
    let addr = scrape_remote_address(&contents).unwrap();
    assert_eq!("728 Mountain St, Haliburton, ON  ", addr);
}

#[test]
fn scrape_remote_address_needs_second_match() {
    let mut s = String::new();
    s.push_str("<html><body><div class=\"bg_primary\"><div><div><div>");
    s.push_str("<h2><small>only one</small></h2>");
    s.push_str("</div></div></div></div></body></html>");
    assert!(scrape_remote_address(&s).is_none());
}

#[test]
fn scrape_local_address_reads_callout() {
    let contents = local_page("728 Mountain St, Haliburton, ON");
    let addr = scrape_local_address(&contents).unwrap();
    assert_eq!("728 Mountain St, Haliburton, ON", addr);
}

#[test]
fn scrape_local_address_missing_structure() {
    assert!(scrape_local_address("<html><body><p>nothing here</p></body></html>").is_none());
}

#[test]
fn resolve_local_scenario() {
    // Resolving /Venue/Map/10566 against https://siteA.test with
    // relative-address extraction: the fixture page carries the address in
    // the expected structural spot, and exactly that string comes back.
    let mut r = AddressResolver::new();
    let (mut job, step) = r.start("https://siteA.test", "/Venue/Map/10566");
    assert_eq!(step, ResolveStep::Fetch);
    assert!(job.is_local);
    assert_eq!(job.url, "https://siteA.test/Venue/Map/10566");
    let contents = local_page("728 Mountain St, Haliburton, ON");
    let extracted = scrape_local_address(&contents);
    let done = r.on_content(&mut job, extracted);
    assert_eq!(
        done,
        ResolveStep::Done(String::from("728 Mountain St, Haliburton, ON"))
    );
}
