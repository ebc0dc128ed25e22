use calendar_scraper::config::load;
use calendar_scraper::games::build_cookie_value;
use calendar_scraper::games::build_datetime_string;
use calendar_scraper::games::build_month_url;
use calendar_scraper::games::split_teams;
use calendar_scraper::games::split_teams_month;
use calendar_scraper::games::wants_all_sites;
use calendar_scraper::import::CountryJson;
use calendar_scraper::import::LocationJson;
use calendar_scraper::import::NamedJson;
use calendar_scraper::import::ProvniceJson;
use calendar_scraper::import::SurfaceJson;
use calendar_scraper::import::prepare_import;

#[test]
fn split_teams_away_marker() {
    let (home, away) = split_teams("Hawks", "@ Bears");
    assert_eq!(home, "Bears");
    assert_eq!(away, "Hawks");
}

#[test]
fn split_teams_home_marker() {
    let (home, away) = split_teams("Hawks", "vs Bears");
    assert_eq!(home, "Hawks");
    assert_eq!(away, "Bears");
}

#[test]
fn split_teams_no_marker() {
    let (home, away) = split_teams("Hawks", "Bears");
    assert_eq!(home, "Hawks");
    assert_eq!(away, "Bears");
}

#[test]
fn split_teams_month_spaced_marker() {
    let (home, away) = split_teams_month("Hawks", "@ Bears");
    assert_eq!(home, "Bears");
    assert_eq!(away, "Hawks");
}

#[test]
fn split_teams_month_bare_at_sign() {
    // the month parser's away marker is a bare `@`; only the spaced form
    // is removed from the name
    let (home, away) = split_teams_month("Hawks", "B@ars");
    assert_eq!(home, "B@ars");
    assert_eq!(away, "Hawks");
}

#[test]
fn split_teams_month_home_marker() {
    let (home, away) = split_teams_month("Hawks", "vs Bears");
    assert_eq!(home, "Hawks");
    assert_eq!(away, "Bears");
}

#[test]
fn month_url_exact() {
    assert_eq!(
        build_month_url("https://siteA.test", "03", "2026"),
        "https://siteA.test/Calendar/?Month=03&Year=2026"
    );
}

#[test]
fn datetime_string_exact() {
    assert_eq!(
        build_datetime_string("2026", "03", "14", "7:30 pm"),
        "2026-03-14 7:30 pm"
    );
}

#[test]
fn cookie_value_exact() {
    assert_eq!(
        build_cookie_value("Dec-26 3:03 am", "Wed, 31-Dec-2025 08:03:01"),
        "MBSW_IS_HUMAN=Passed Dec-26 3:03 am; expires=Wed, 31-Dec-2025 08:03:01 GMT; path=/; SameSite=Strict"
    );
}

#[test]
fn all_sites_filter() {
    assert!(wants_all_sites(&vec![String::from("all")]));
    assert!(!wants_all_sites(&vec![String::from("siteA")]));
    assert!(!wants_all_sites(&vec![
        String::from("all"),
        String::from("siteA")
    ]));
    assert!(!wants_all_sites(&Vec::new()));
}

#[test]
fn config_load_keeps_values() {
    let cfg = load(String::from("mysql://localhost/db"), String::from("k"));
    assert_eq!(cfg.db_dsn, "mysql://localhost/db");
    assert_eq!(cfg.api_key, "k");
}

fn sample_location() -> LocationJson {
    LocationJson {
        id: 7,
        address1: Some(String::from("1 Rink Rd")),
        address2: None,
        city: Some(String::from("Haliburton")),
        name: String::from("Main Arena"),
        uuid: String::from("u-77"),
        recording_hours_local: None,
        postalCode: Some(String::from("K0M 1S0")),
        all_sheets_count: None,
        longitude_bits: 0x41a00000,
        latitude_bits: 0x42200000,
        logo_values: Some(vec![String::from("a.png"), String::from("b.png")]),
        province: ProvniceJson {
            id: 9,
            name: String::from("Ontario"),
            country: CountryJson { id: 1, name: String::from("Canada") },
        },
        venue_status: None,
        surfaces: vec![SurfaceJson {
            id: 31,
            name: String::from("Pad A"),
            uuid: String::from("s-31"),
            orderIndex: 2,
            venueId: 7,
            comingSoon: false,
            closedFrom: None,
            online: true,
            surfaceStatus: NamedJson { name: String::from("open") },
            sports: vec![
                NamedJson { name: String::from("Hockey") },
                NamedJson { name: String::from("Skating") },
            ],
            firstMedia: None,
            renditions: Vec::new(),
        }],
        zoneIds: None,
    }
}

#[test]
fn prepare_import_builds_all_rows() {
    let rows = prepare_import(&vec![sample_location()]);
    assert_eq!(rows.provinces.len(), 1);
    assert_eq!(rows.locations.len(), 1);
    assert_eq!(rows.surfaces.len(), 1);

    let p = &rows.provinces[0];
    assert_eq!(p.id, 9);
    assert_eq!(p.province_name, "Ontario");
    assert_eq!(p.country, "Canada");

    let l = &rows.locations[0];
    assert_eq!(l.id, 7);
    assert_eq!(l.address1, "1 Rink Rd");
    assert_eq!(l.address2, "");
    assert_eq!(l.city, "Haliburton");
    assert_eq!(l.postal_code, "K0M 1S0");
    assert_eq!(l.all_sheets_count, 0);
    assert_eq!(l.logo_url, "a.png,b.png");
    assert_eq!(l.province_id, Some(9));
    assert_eq!(l.venue_status, "");
    assert_eq!(l.zone, "");
    assert_eq!(l.total_surfaces, 0);
    assert_eq!(l.longitude_bits, 0x41a00000);

    let s = &rows.surfaces[0];
    assert_eq!(s.id, 31);
    assert_eq!(s.location_id, 7);
    assert_eq!(s.name, "Main Arena");
    assert_eq!(s.uuid, "u-77");
    assert_eq!(s.orderIndex, 2);
    assert_eq!(s.venue_id, 7);
    assert_eq!(s.closed_from, 0);
    assert_eq!(s.status, "open");
    assert_eq!(s.sports, "HockeySkating");
    assert_eq!(s.first_media_date, 0);
}

#[test]
fn prepare_import_empty_feed() {
    let rows = prepare_import(&Vec::new());
    assert_eq!(rows.provinces.len(), 0);
    assert_eq!(rows.locations.len(), 0);
    assert_eq!(rows.surfaces.len(), 0);
}

#[test]
fn prepare_import_flattens_surfaces_in_order() {
    let mut l1 = sample_location();
    let mut l2 = sample_location();
    l2.id = 8;
    l2.surfaces.push(SurfaceJson {
        id: 32,
        name: String::from("Pad B"),
        uuid: String::from("s-32"),
        orderIndex: 3,
        venueId: 8,
        comingSoon: true,
        closedFrom: Some(99),
        online: false,
        surfaceStatus: NamedJson { name: String::from("closed") },
        sports: Vec::new(),
        firstMedia: None,
        renditions: Vec::new(),
    });
    l1.id = 5;
    let rows = prepare_import(&vec![l1, l2]);
    assert_eq!(rows.surfaces.len(), 3);
    assert_eq!(rows.surfaces[0].location_id, 5);
    assert_eq!(rows.surfaces[1].location_id, 8);
    assert_eq!(rows.surfaces[2].location_id, 8);
    assert_eq!(rows.surfaces[2].id, 32);
    assert_eq!(rows.surfaces[2].closed_from, 99);
    assert_eq!(rows.surfaces[2].sports, "");
}
