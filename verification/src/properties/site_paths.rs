//! The site map: every path under which listings can be browsed.

use crate::properties::enumerates::PurchaseStatus;
use crate::text::{replace, replaced};
use vstd::prelude::*;

verus! {

/// A stored name as a path segment: its spaces turned into hyphens.
pub open spec fn segment_of(name: Seq<char>) -> Seq<char> {
    replaced(name, ' ', '-')
}

/// The path of an offer.
pub open spec fn offer_path(offer: PurchaseStatus) -> Seq<char> {
    "/"@ + offer.slug()
}

/// The path of a building type under an offer.
pub open spec fn building_type_path(offer: PurchaseStatus, building_type: Seq<char>) -> Seq<char> {
    offer_path(offer) + "/"@ + segment_of(building_type)
}

/// The path of a province under a building type.
pub open spec fn province_path(
    offer: PurchaseStatus,
    building_type: Seq<char>,
    province: Seq<char>,
) -> Seq<char> {
    building_type_path(offer, building_type) + "/"@ + segment_of(province)
}

/// The path of a regency under a province.
pub open spec fn regency_path(
    offer: PurchaseStatus,
    building_type: Seq<char>,
    province: Seq<char>,
    regency: Seq<char>,
) -> Seq<char> {
    province_path(offer, building_type, province) + "/"@ + segment_of(regency)
}

/// The characters of each text of a list.
pub open spec fn texts(list: Seq<String>) -> Seq<Seq<char>> {
    Seq::new(list.len(), |i: int| list[i]@)
}

/// The paths of a list of building types, in the order of the list.
pub open spec fn building_type_paths(rows: Seq<(PurchaseStatus, String)>) -> Seq<Seq<char>> {
    Seq::new(rows.len(), |i: int| building_type_path(rows[i].0, rows[i].1@))
}

/// The paths of a list of provinces, in the order of the list.
pub open spec fn province_paths(rows: Seq<(PurchaseStatus, String, String)>) -> Seq<Seq<char>> {
    Seq::new(rows.len(), |i: int| province_path(rows[i].0, rows[i].1@, rows[i].2@))
}

/// The paths of a list of regencies, in the order of the list.
pub open spec fn regency_paths(rows: Seq<(PurchaseStatus, String, String, String)>) -> Seq<
    Seq<char>,
> {
    Seq::new(rows.len(), |i: int| regency_path(rows[i].0, rows[i].1@, rows[i].2@, rows[i].3@))
}

/// The site map: the paths of sale and of rent; then those of the building
/// types, of the provinces and of the regencies that the store reported;
/// then the site paths of the listings themselves. A group that the store
/// could not report is left out.
pub open spec fn site_map_of(
    building_types: Option<Vec<(PurchaseStatus, String)>>,
    provinces: Option<Vec<(PurchaseStatus, String, String)>>,
    regencies: Option<Vec<(PurchaseStatus, String, String, String)>>,
    listed: Option<Vec<String>>,
) -> Seq<Seq<char>> {
    seq![offer_path(PurchaseStatus::ForSale), offer_path(PurchaseStatus::ForRent)] + (
    match building_types {
        Some(rows) => building_type_paths(rows@),
        None => Seq::empty(),
    }) + (match provinces {
        Some(rows) => province_paths(rows@),
        None => Seq::empty(),
    }) + (match regencies {
        Some(rows) => regency_paths(rows@),
        None => Seq::empty(),
    }) + (match listed {
        Some(paths) => texts(paths@),
        None => Seq::empty(),
    })
}

fn offer_path_text(offer: PurchaseStatus) -> (path: String)
    ensures
        path@ == offer_path(offer),
{
    let mut path = String::from_str("/");
    path.append(offer.to_slug().as_str());
    path
}

fn extend(path: String, name: &str) -> (longer: String)
    ensures
        longer@ == path@ + "/"@ + segment_of(name@),
{
    proof {
        reveal_strlit("-");
    }
    let mut longer = path;
    longer.append("/");
    longer.append(replace(name, ' ', "-").as_str());
    longer
}

fn push_building_type_paths(paths: &mut Vec<String>, rows: &Vec<(PurchaseStatus, String)>)
    ensures
        texts(final(paths)@) == texts(old(paths)@) + building_type_paths(rows@),
{
    let ghost before = texts(paths@);
    let mut i: usize = 0;
    while i < rows.len()
        invariant
            i <= rows.len(),
            texts(paths@) == before + building_type_paths(rows@).take(i as int),
        decreases rows.len() - i,
    {
        let row = &rows[i];
        let path = extend(offer_path_text(row.0), row.1.as_str());
        let ghost sofar = texts(paths@);
        paths.push(path);
        i += 1;
        assert(texts(paths@) =~= sofar.push(building_type_paths(rows@)[i - 1]));
        assert(building_type_paths(rows@).take(i as int) =~= building_type_paths(rows@).take(
            i - 1,
        ).push(building_type_paths(rows@)[i - 1]));
    }
    assert(building_type_paths(rows@).take(i as int) =~= building_type_paths(rows@));
}

fn push_province_paths(paths: &mut Vec<String>, rows: &Vec<(PurchaseStatus, String, String)>)
    ensures
        texts(final(paths)@) == texts(old(paths)@) + province_paths(rows@),
{
    let ghost before = texts(paths@);
    let mut i: usize = 0;
    while i < rows.len()
        invariant
            i <= rows.len(),
            texts(paths@) == before + province_paths(rows@).take(i as int),
        decreases rows.len() - i,
    {
        let row = &rows[i];
        let path = extend(extend(offer_path_text(row.0), row.1.as_str()), row.2.as_str());
        let ghost sofar = texts(paths@);
        paths.push(path);
        i += 1;
        assert(texts(paths@) =~= sofar.push(province_paths(rows@)[i - 1]));
        assert(province_paths(rows@).take(i as int) =~= province_paths(rows@).take(i - 1).push(
            province_paths(rows@)[i - 1],
        ));
    }
    assert(province_paths(rows@).take(i as int) =~= province_paths(rows@));
}

fn push_regency_paths(
    paths: &mut Vec<String>,
    rows: &Vec<(PurchaseStatus, String, String, String)>,
)
    ensures
        texts(final(paths)@) == texts(old(paths)@) + regency_paths(rows@),
{
    let ghost before = texts(paths@);
    let mut i: usize = 0;
    while i < rows.len()
        invariant
            i <= rows.len(),
            texts(paths@) == before + regency_paths(rows@).take(i as int),
        decreases rows.len() - i,
    {
        let row = &rows[i];
        let path = extend(
            extend(extend(offer_path_text(row.0), row.1.as_str()), row.2.as_str()),
            row.3.as_str(),
        );
        let ghost sofar = texts(paths@);
        paths.push(path);
        i += 1;
        assert(texts(paths@) =~= sofar.push(regency_paths(rows@)[i - 1]));
        assert(regency_paths(rows@).take(i as int) =~= regency_paths(rows@).take(i - 1).push(
            regency_paths(rows@)[i - 1],
        ));
    }
    assert(regency_paths(rows@).take(i as int) =~= regency_paths(rows@));
}

fn push_listed_paths(paths: &mut Vec<String>, listed: &Vec<String>)
    ensures
        texts(final(paths)@) == texts(old(paths)@) + texts(listed@),
{
    let ghost before = texts(paths@);
    let mut i: usize = 0;
    while i < listed.len()
        invariant
            i <= listed.len(),
            texts(paths@) == before + texts(listed@).take(i as int),
        decreases listed.len() - i,
    {
        let ghost sofar = texts(paths@);
        paths.push(listed[i].clone());
        i += 1;
        assert(texts(paths@) =~= sofar.push(texts(listed@)[i - 1]));
        assert(texts(listed@).take(i as int) =~= texts(listed@).take(i - 1).push(
            texts(listed@)[i - 1],
        ));
    }
    assert(texts(listed@).take(i as int) =~= texts(listed@));
}

/// Lists the site map from what the store reported of building types,
/// provinces, regencies and listed site paths; `None` stands for a report
/// that the store failed to give.
pub fn find_site_paths(
    building_types: &Option<Vec<(PurchaseStatus, String)>>,
    provinces: &Option<Vec<(PurchaseStatus, String, String)>>,
    regencies: &Option<Vec<(PurchaseStatus, String, String, String)>>,
    listed: &Option<Vec<String>>,
) -> (site_paths: Vec<String>)
    ensures
        texts(site_paths@) == site_map_of(*building_types, *provinces, *regencies, *listed),
{
    let mut site_paths: Vec<String> = Vec::new();
    site_paths.push(offer_path_text(PurchaseStatus::ForSale));
    site_paths.push(offer_path_text(PurchaseStatus::ForRent));
    if let Some(rows) = building_types {
        push_building_type_paths(&mut site_paths, rows);
    }
    if let Some(rows) = provinces {
        push_province_paths(&mut site_paths, rows);
    }
    if let Some(rows) = regencies {
        push_regency_paths(&mut site_paths, rows);
    }
    if let Some(paths) = listed {
        push_listed_paths(&mut site_paths, paths);
    }
    site_paths
}

} // verus!
