//! The venue-import data set: the JSON shapes the venue feed delivers, the
//! relational rows they become, and the transformation between the two.
//! The surrounding program reads the feed and writes the rows; the
//! transformation itself is verified. The feed's longitude and latitude
//! ride along as raw `f32` bit patterns, since the import only moves them.

use vstd::prelude::*;

verus! {

/// A country as the feed names it.
#[derive(Debug, Clone)]
pub struct CountryJson {
    pub id: i32,
    pub name: String,
}

/// A province as the feed names it.
#[derive(Debug, Clone)]
pub struct ProvniceJson {
    pub id: i32,
    pub name: String,
    pub country: CountryJson,
}

/// A zone list, of which the feed only carries the name.
#[derive(Debug, Clone)]
pub struct ZoneIds {
    pub name: String,
}

/// A venue status, of which the feed only carries the name.
#[derive(Debug, Clone)]
pub struct VenueStatusJson {
    pub name: String,
}

/// Anything of the feed's that only its name is read from.
#[derive(Debug, Clone)]
pub struct NamedJson {
    pub name: String,
}

/// The first-media record of a surface.
#[allow(non_snake_case)]
#[derive(Debug, Clone)]
pub struct FirstMediaJson {
    pub firstMediaDate: u64,
}

/// A media rendition of a surface's feed entry; carried, never read.
#[derive(Debug, Clone)]
pub struct Rendition {
    pub id: i32,
    pub name: String,
    pub width: i32,
    pub height: i32,
    pub ratio: String,
    pub bitrate: i64,
}

/// A playing surface as the feed delivers it.
#[allow(non_snake_case)]
#[derive(Debug, Clone)]
pub struct SurfaceJson {
    pub id: i32,
    pub name: String,
    pub uuid: String,
    pub orderIndex: i32,
    pub venueId: i32,
    pub comingSoon: bool,
    pub closedFrom: Option<u64>,
    pub online: bool,
    pub surfaceStatus: NamedJson,
    pub sports: Vec<NamedJson>,
    pub firstMedia: Option<FirstMediaJson>,
    pub renditions: Vec<Rendition>,
}

/// A venue location as the feed delivers it.
#[allow(non_snake_case)]
#[derive(Debug, Clone)]
pub struct LocationJson {
    pub id: i32,
    pub address1: Option<String>,
    pub address2: Option<String>,
    pub city: Option<String>,
    pub name: String,
    pub uuid: String,
    pub recording_hours_local: Option<String>,
    pub postalCode: Option<String>,
    pub all_sheets_count: Option<i32>,
    pub longitude_bits: u32,
    pub latitude_bits: u32,
    pub logo_values: Option<Vec<String>>,
    pub province: ProvniceJson,
    pub venue_status: Option<VenueStatusJson>,
    pub surfaces: Vec<SurfaceJson>,
    pub zoneIds: Option<ZoneIds>,
}

/// A province row ready to insert.
#[derive(Debug, Clone)]
pub struct Provnice {
    pub id: i32,
    pub province_name: String,
    pub country: String,
}

/// A location row ready to insert.
#[derive(Debug, Clone)]
pub struct Location {
    pub id: i32,
    pub address1: String,
    pub address2: String,
    pub city: String,
    pub name: String,
    pub uuid: String,
    pub recording_hours_local: String,
    pub postal_code: String,
    pub all_sheets_count: i32,
    pub longitude_bits: u32,
    pub latitude_bits: u32,
    pub logo_url: String,
    pub province_id: Option<i32>,
    pub venue_status: String,
    pub zone: String,
    pub total_surfaces: i32,
}

/// A surface row ready to insert.
#[allow(non_snake_case)]
#[derive(Debug, Clone)]
pub struct Surface {
    pub id: i32,
    pub location_id: i32,
    pub name: String,
    pub uuid: String,
    pub orderIndex: i32,
    pub venue_id: i32,
    pub closed_from: u64,
    pub coming_soon: bool,
    pub online: bool,
    pub status: String,
    pub sports: String,
    pub first_media_date: u64,
}

/// A site-to-location match row, written by the location matching step.
#[derive(Debug, Clone)]
pub struct SitesLocation {
    pub site: String,
    pub location: String,
    pub location_id: i32,
    pub loc: Option<String>,
    pub surface: Option<String>,
    pub address: Option<String>,
    pub match_type: Option<String>,
    pub surface_id: i32,
}

/// The contents of an optional string, empty when absent.
pub open spec fn opt_str(o: Option<String>) -> Seq<char> {
    match o {
        Some(s) => s@,
        None => Seq::<char>::empty(),
    }
}

/// The strings of `ss` run together in order, with nothing between them.
pub open spec fn concat_all(ss: Seq<Seq<char>>) -> Seq<char>
    decreases ss.len(),
{
    if ss.len() == 0 {
        Seq::<char>::empty()
    } else {
        concat_all(ss.drop_last()) + ss.last()
    }
}

/// The strings of `ss` joined with commas, in order.
pub open spec fn join_comma(ss: Seq<Seq<char>>) -> Seq<char>
    decreases ss.len(),
{
    if ss.len() == 0 {
        Seq::<char>::empty()
    } else if ss.len() == 1 {
        ss[0]
    } else {
        join_comma(ss.drop_last()) + ","@ + ss.last()
    }
}

/// The province row an imported location contributes.
pub open spec fn province_row_matches(l: LocationJson, r: Provnice) -> bool {
    &&& r.id == l.province.id
    &&& r.province_name@ == l.province.name@
    &&& r.country@ == l.province.country.name@
}

/// The surface row one of a location's surfaces becomes. The row takes the
/// location's name and uuid, and its sports are the sport names run
/// together.
pub open spec fn surface_row_matches(l: LocationJson, s: SurfaceJson, r: Surface) -> bool {
    &&& r.id == s.id
    &&& r.location_id == l.id
    &&& r.name@ == l.name@
    &&& r.uuid@ == l.uuid@
    &&& r.orderIndex == s.orderIndex
    &&& r.venue_id == s.venueId
    &&& r.closed_from == (match s.closedFrom {
        Some(c) => c,
        None => 0u64,
    })
    &&& r.coming_soon == s.comingSoon
    &&& r.online == s.online
    &&& r.status@ == s.surfaceStatus.name@
    &&& r.sports@ == concat_all(s.sports@.map_values(|n: NamedJson| n.name@))
    &&& r.first_media_date == (match s.firstMedia {
        Some(m) => m.firstMediaDate,
        None => 0u64,
    })
}

/// The location row an imported location becomes: absent strings come out
/// empty, the logo values are comma-joined, the province is referenced by
/// id, and the surface total starts at zero.
pub open spec fn location_row_matches(l: LocationJson, r: Location) -> bool {
    &&& r.id == l.id
    &&& r.address1@ == opt_str(l.address1)
    &&& r.address2@ == opt_str(l.address2)
    &&& r.city@ == opt_str(l.city)
    &&& r.name@ == l.name@
    &&& r.uuid@ == l.uuid@
    &&& r.recording_hours_local@ == opt_str(l.recording_hours_local)
    &&& r.postal_code@ == opt_str(l.postalCode)
    &&& r.all_sheets_count == (match l.all_sheets_count {
        Some(c) => c,
        None => 0i32,
    })
    &&& r.longitude_bits == l.longitude_bits
    &&& r.latitude_bits == l.latitude_bits
    &&& r.logo_url@ == (match l.logo_values {
        Some(vs) => join_comma(vs.deep_view()),
        None => Seq::<char>::empty(),
    })
    &&& r.province_id == Some(l.province.id)
    &&& r.venue_status@ == (match l.venue_status {
        Some(st) => st.name@,
        None => Seq::<char>::empty(),
    })
    &&& r.zone@ == (match l.zoneIds {
        Some(z) => z.name@,
        None => Seq::<char>::empty(),
    })
    &&& r.total_surfaces == 0
}

/// How many surface rows the first `i` locations contribute.
pub open spec fn surfaces_before(ls: Seq<LocationJson>, i: int) -> int
    decreases i,
{
    if i <= 0 {
        0
    } else {
        surfaces_before(ls, i - 1) + ls[i - 1].surfaces@.len()
    }
}

/// The surface-row offsets grow with the location index.
proof fn lemma_surfaces_before_nonneg(ls: Seq<LocationJson>, a: int)
    requires
        0 <= a,
    ensures
        0 <= surfaces_before(ls, a),
    decreases a,
{
    if a > 0 {
        lemma_surfaces_before_nonneg(ls, a - 1);
    }
}

/// The surface-row offsets grow with the location index.
proof fn lemma_surfaces_before_mono(ls: Seq<LocationJson>, a: int, b: int)
    requires
        0 <= a <= b,
    ensures
        surfaces_before(ls, a) <= surfaces_before(ls, b),
        a < b ==> surfaces_before(ls, a) + ls[a].surfaces@.len() <= surfaces_before(ls, b),
        0 <= surfaces_before(ls, a),
    decreases b - a,
{
    lemma_surfaces_before_nonneg(ls, a);
    if a < b {
        lemma_surfaces_before_mono(ls, a, b - 1);
    }
}

/// The three row sets one import run inserts.
#[derive(Debug)]
pub struct ImportRows {
    pub locations: Vec<Location>,
    pub provinces: Vec<Provnice>,
    pub surfaces: Vec<Surface>,
}

/// An optional string's contents, or empty.
fn opt_or_empty(o: &Option<String>) -> (r: String)
    ensures
        r@ == opt_str(*o),
{
    match o {
        Some(s) => s.clone(),
        None => String::new(),
    }
}

/// Runs the names of `ns` together, in order.
fn concat_names(ns: &Vec<NamedJson>) -> (r: String)
    ensures
        r@ == concat_all(ns@.map_values(|n: NamedJson| n.name@)),
{
    let ghost m = ns@.map_values(|n: NamedJson| n.name@);
    let mut out = String::new();
    let mut i: usize = 0;
    while i < ns.len()
        invariant
            0 <= i <= ns@.len(),
            m == ns@.map_values(|n: NamedJson| n.name@),
            out@ == concat_all(m.take(i as int)),
        decreases ns@.len() - i,
    {
        out.append(ns[i].name.as_str());
        proof {
            assert(m.take(i + 1).drop_last() =~= m.take(i as int));
            assert(m.take(i + 1).last() == m[i as int]);
        }
        i = i + 1;
    }
    proof {
        assert(m.take(ns@.len() as int) =~= m);
    }
    out
}

/// Joins the strings of `vs` with commas, in order.
fn join_with_comma(vs: &Vec<String>) -> (r: String)
    ensures
        r@ == join_comma(vs.deep_view()),
{
    let ghost m = vs.deep_view();
    let mut out = String::new();
    let mut i: usize = 0;
    while i < vs.len()
        invariant
            0 <= i <= vs@.len(),
            m == vs.deep_view(),
            m.len() == vs@.len(),
            out@ == join_comma(m.take(i as int)),
        decreases vs@.len() - i,
    {
        if i > 0 {
            out.append(",");
        }
        out.append(vs[i].as_str());
        proof {
            assert(m.take(i + 1).drop_last() =~= m.take(i as int));
            assert(m.take(i + 1).last() == m[i as int]);
            assert(m[i as int] == vs@[i as int]@);
            if i == 0 {
                assert(join_comma(m.take(1)) == m.take(1)[0]);
            }
        }
        i = i + 1;
    }
    proof {
        assert(m.take(vs@.len() as int) =~= m);
    }
    out
}

/// Turns the venue feed into the rows to insert: one province row and one
/// location row per location, in feed order, and every surface of every
/// location flattened in feed order.
pub fn prepare_import(locations: &Vec<LocationJson>) -> (r: ImportRows)
    ensures
        r.provinces@.len() == locations@.len(),
        r.locations@.len() == locations@.len(),
        forall|i: int|
            0 <= i < locations@.len() ==> #[trigger] province_row_matches(
                locations@[i],
                r.provinces@[i],
            ),
        forall|i: int|
            0 <= i < locations@.len() ==> #[trigger] location_row_matches(
                locations@[i],
                r.locations@[i],
            ),
        r.surfaces@.len() == surfaces_before(locations@, locations@.len() as int),
        forall|i: int, j: int|
            0 <= i < locations@.len() && 0 <= j < locations@[i].surfaces@.len()
                ==> #[trigger] surface_row_matches(
                locations@[i],
                locations@[i].surfaces@[j],
                r.surfaces@[surfaces_before(locations@, i) + j],
            ),
{
    let ghost ls = locations@;
    let mut loc_rows: Vec<Location> = Vec::new();
    let mut prov_rows: Vec<Provnice> = Vec::new();
    let mut surf_rows: Vec<Surface> = Vec::new();
    let mut li: usize = 0;
    while li < locations.len()
        invariant
            0 <= li <= ls.len(),
            ls == locations@,
            prov_rows@.len() == li,
            loc_rows@.len() == li,
            surf_rows@.len() == surfaces_before(ls, li as int),
            forall|i: int|
                0 <= i < li ==> #[trigger] province_row_matches(ls[i], prov_rows@[i]),
            forall|i: int|
                0 <= i < li ==> #[trigger] location_row_matches(ls[i], loc_rows@[i]),
            forall|i: int, j: int|
                0 <= i < li && 0 <= j < ls[i].surfaces@.len() ==> #[trigger] surface_row_matches(
                    ls[i],
                    ls[i].surfaces@[j],
                    surf_rows@[surfaces_before(ls, i) + j],
                ),
        decreases ls.len() - li,
    {
        let l = &locations[li];
        prov_rows.push(
            Provnice {
                id: l.province.id,
                province_name: l.province.name.clone(),
                country: l.province.country.name.clone(),
            },
        );
        let vn = match &l.venue_status {
            Some(st) => st.name.clone(),
            None => String::new(),
        };
        let logo = match &l.logo_values {
            Some(vs) => join_with_comma(vs),
            None => String::new(),
        };
        let zone = match &l.zoneIds {
            Some(z) => z.name.clone(),
            None => String::new(),
        };
        let sheets = match l.all_sheets_count {
            Some(c) => c,
            None => 0,
        };
        loc_rows.push(
            Location {
                id: l.id,
                address1: opt_or_empty(&l.address1),
                address2: opt_or_empty(&l.address2),
                city: opt_or_empty(&l.city),
                name: l.name.clone(),
                uuid: l.uuid.clone(),
                recording_hours_local: opt_or_empty(&l.recording_hours_local),
                postal_code: opt_or_empty(&l.postalCode),
                all_sheets_count: sheets,
                longitude_bits: l.longitude_bits,
                latitude_bits: l.latitude_bits,
                logo_url: logo,
                province_id: Some(l.province.id),
                venue_status: vn,
                zone,
                total_surfaces: 0,
            },
        );
        let ghost surf_base = surf_rows@.len() as int;
        let mut si: usize = 0;
        while si < l.surfaces.len()
            invariant
                0 <= si <= l.surfaces@.len(),
                li < ls.len(),
                ls == locations@,
                l == &locations[li as int],
                0 <= surf_base,
                surf_base == surfaces_before(ls, li as int),
                surf_rows@.len() == surf_base + si,
                forall|j: int|
                    0 <= j < si ==> #[trigger] surface_row_matches(
                        ls[li as int],
                        ls[li as int].surfaces@[j],
                        surf_rows@[surf_base + j],
                    ),
                forall|i: int, j: int|
                    0 <= i < li && 0 <= j < ls[i].surfaces@.len()
                        ==> #[trigger] surface_row_matches(
                        ls[i],
                        ls[i].surfaces@[j],
                        surf_rows@[surfaces_before(ls, i) + j],
                    ),
            decreases l.surfaces@.len() - si,
        {
            let ghost prev_rows = surf_rows@;
            let s = &l.surfaces[si];
            let closed = match s.closedFrom {
                Some(c) => c,
                None => 0,
            };
            let media = match &s.firstMedia {
                Some(m) => m.firstMediaDate,
                None => 0,
            };
            surf_rows.push(
                Surface {
                    id: s.id,
                    location_id: l.id,
                    name: l.name.clone(),
                    uuid: l.uuid.clone(),
                    orderIndex: s.orderIndex,
                    venue_id: s.venueId,
                    closed_from: closed,
                    coming_soon: s.comingSoon,
                    online: s.online,
                    status: s.surfaceStatus.name.clone(),
                    sports: concat_names(&s.sports),
                    first_media_date: media,
                },
            );
            proof {
                assert(surf_rows@[surf_base + si as int] == surf_rows@.last());
                assert(surface_row_matches(
                    ls[li as int],
                    ls[li as int].surfaces@[si as int],
                    surf_rows@[surf_base + si as int],
                ));
                assert forall|j: int|
                    0 <= j < si + 1 implies #[trigger] surface_row_matches(
                        ls[li as int],
                        ls[li as int].surfaces@[j],
                        surf_rows@[surf_base + j],
                    ) by {
                    if j < si {
                        assert(surf_rows@[surf_base + j] == prev_rows[surf_base + j]);
                    }
                }
                assert forall|i: int, j: int|
                    0 <= i < li && 0 <= j < ls[i].surfaces@.len()
                        implies #[trigger] surface_row_matches(
                        ls[i],
                        ls[i].surfaces@[j],
                        surf_rows@[surfaces_before(ls, i) + j],
                    ) by {
                    lemma_surfaces_before_mono(ls, i + 1, li as int);
                    lemma_surfaces_before_mono(ls, 0, i);
                }
            }
            si = si + 1;
        }
        li = li + 1;
    }
    ImportRows { locations: loc_rows, provinces: prov_rows, surfaces: surf_rows }
}

} // verus!
