//! The search engine: who sees what, which filters apply, and in what
//! order the results come.

use crate::agents::{AgentRole, Caller};
use crate::properties::enumerates::{PurchaseStatus, SoldStatus};
use crate::properties::filter::{FilterSpec, FindPropertyQuery, FindPropertySort};
use crate::properties::predicate::{
    Field, FieldView, Predicate, PredicateView, MIN_SIMILARITY_PERCENT,
};
use crate::properties::query::{OrderSpec, OrderSpecView};
use crate::schema::TextColumn;
use crate::text::{lowercase, optional_text, parse_i32, parsed_i32, to_lowercase};
use vstd::prelude::*;

verus! {

/// The name of the configuration flag that marks a popular listing.
pub open spec fn popular_flag() -> Seq<char> {
    "is_popular"@
}

/// The listings that a caller may see at all: a visitor those that are
/// available and not deleted, an agent their own that are not deleted, an
/// admin every one.
pub open spec fn visibility_of(caller: Option<Caller>) -> PredicateView {
    match caller {
        None => PredicateView::Equals(FieldView::Deleted(false)).and(
            PredicateView::Equals(FieldView::Sold(SoldStatus::Available)),
        ),
        Some(c) => match c.role {
            AgentRole::Admin => PredicateView::True,
            AgentRole::Agent => PredicateView::Equals(FieldView::Owner(c.user_id)).and(
                PredicateView::Equals(FieldView::Deleted(false)),
            ),
        },
    }
}

/// The visibility policy: the condition that is put on every search of a
/// caller before any filter.
pub fn visibility(caller: &Option<Caller>) -> (predicate: Predicate)
    ensures
        predicate@ == visibility_of(*caller),
{
    match caller {
        None => Predicate::Equals(Field::Deleted(false)).and(
            Predicate::Equals(Field::Sold(SoldStatus::Available)),
        ),
        Some(c) => match c.role {
            AgentRole::Admin => Predicate::True,
            AgentRole::Agent => Predicate::Equals(Field::Owner(c.user_id)).and(
                Predicate::Equals(Field::Deleted(false)),
            ),
        },
    }
}

/// How a search term is matched.
#[derive(Clone, Copy, Debug, PartialEq, Eq, Structural)]
pub enum SearchMatching {
    /// By similarity to the site path, for results ranked by it.
    Ranked,
    /// By containment in the title or the street, letter case aside, for
    /// counting every listing that could be meant.
    Inclusive,
}

/// The patterns that find a term at the end of, inside, or at the start of
/// a column, joined by "or".
pub open spec fn ilike_any(column: TextColumn, term: Seq<char>) -> PredicateView {
    PredicateView::ILike(column, "%"@ + term).or(
        PredicateView::ILike(column, "%"@ + term + "%"@),
    ).or(PredicateView::ILike(column, term + "%"@))
}

/// The condition that a search term stands for. A term that spells an
/// integer is a lookup of that id, however it is matched otherwise. Any
/// other term is held against the site path, whose similarity to it must
/// exceed a tenth, when results are ranked; and is looked for at the end
/// of, inside and at the start of title and street when they are counted.
pub open spec fn search_of(term: Seq<char>, matching: SearchMatching) -> PredicateView {
    match parsed_i32(term) {
        Some(id) => PredicateView::Equals(FieldView::Id(id)),
        None => match matching {
            SearchMatching::Ranked => PredicateView::Similar(
                TextColumn::SitePath,
                term,
                MIN_SIMILARITY_PERCENT,
            ),
            SearchMatching::Inclusive => ilike_any(TextColumn::Title, term).or(
                ilike_any(TextColumn::Street, term),
            ),
        },
    }
}

/// The condition of an optional search term.
pub open spec fn search_filter(term: Option<Seq<char>>, matching: SearchMatching) -> Option<
    PredicateView,
> {
    match term {
        Some(t) => Some(search_of(t, matching)),
        None => None,
    }
}

/// The condition that a text filter puts on a column: the column holds the
/// lowercase form of the text asked for.
pub open spec fn text_filter(column: TextColumn, wanted: Option<Seq<char>>) -> Option<
    PredicateView,
> {
    match wanted {
        Some(text) => Some(PredicateView::Equals(FieldView::Text(column, lowercase(text)))),
        None => None,
    }
}

/// The condition of the popularity filter: the configuration bag holds the
/// popularity flag with the value asked for.
pub open spec fn popularity_filter(wanted: Option<bool>) -> Option<PredicateView> {
    match wanted {
        Some(value) => Some(PredicateView::Contains(popular_flag(), value)),
        None => None,
    }
}

/// The condition of the availability filter.
pub open spec fn sold_status_filter(wanted: Option<SoldStatus>) -> Option<PredicateView> {
    match wanted {
        Some(status) => Some(PredicateView::Equals(FieldView::Sold(status))),
        None => None,
    }
}

/// The condition of the offer filter: the offer asked for, or the offer
/// that stands for both sale and rent.
pub open spec fn purchase_status_filter(wanted: Option<PurchaseStatus>) -> Option<PredicateView> {
    match wanted {
        Some(status) => Some(
            PredicateView::Equals(FieldView::Purchase(status)).or(
                PredicateView::Equals(FieldView::Purchase(PurchaseStatus::ForSaleOrRent)),
            ),
        ),
        None => None,
    }
}

/// The condition of the developer filter.
pub open spec fn developer_filter(wanted: Option<i32>) -> Option<PredicateView> {
    match wanted {
        Some(id) => Some(PredicateView::Equals(FieldView::Developer(id))),
        None => None,
    }
}

/// A predicate with one more condition, where there is one.
pub open spec fn narrowed(base: PredicateView, extra: Option<PredicateView>) -> PredicateView {
    match extra {
        Some(condition) => base.and(condition),
        None => base,
    }
}

/// A base predicate narrowed by a search condition and then by every
/// filter that is set, each joined by "and": the filters on province,
/// regency, street, popularity, availability, offer, building type and
/// developer, in that order.
pub open spec fn filtered(
    base: PredicateView,
    search: Option<PredicateView>,
    filters: FilterSpec,
) -> PredicateView {
    let p0 = narrowed(base, search);
    let p1 = narrowed(p0, text_filter(TextColumn::Province, filters.province));
    let p2 = narrowed(p1, text_filter(TextColumn::Regency, filters.regency));
    let p3 = narrowed(p2, text_filter(TextColumn::Street, filters.street));
    let p4 = narrowed(p3, popularity_filter(filters.is_popular));
    let p5 = narrowed(p4, sold_status_filter(filters.sold_status));
    let p6 = narrowed(p5, purchase_status_filter(filters.purchase_status));
    let p7 = narrowed(p6, text_filter(TextColumn::BuildingType, filters.building_type));
    narrowed(p7, developer_filter(filters.developer_id))
}

/// The condition on the listings that a search returns.
pub open spec fn retrieval_predicate(caller: Option<Caller>, filters: FilterSpec) -> PredicateView {
    filtered(visibility_of(caller), search_filter(filters.s, SearchMatching::Ranked), filters)
}

/// The condition on the listings that a search counts.
pub open spec fn count_predicate(caller: Option<Caller>, filters: FilterSpec) -> PredicateView {
    filtered(visibility_of(caller), search_filter(filters.s, SearchMatching::Inclusive), filters)
}

/// The order of the results: the explicit sort where there is one; else,
/// for a term that spells no integer, by site path and then similarity;
/// else newest first.
pub open spec fn order_of(filters: FilterSpec) -> OrderSpecView {
    match filters.sort {
        Some(FindPropertySort::LowestPrice) => OrderSpecView::PriceAscending,
        Some(FindPropertySort::HighestPrice) => OrderSpecView::PriceDescending,
        None => match filters.s {
            Some(term) => if parsed_i32(term) is Some {
                OrderSpecView::IdDescending
            } else {
                OrderSpecView::SitePathThenSimilarity(term)
            },
            None => OrderSpecView::IdDescending,
        },
    }
}

/// Whether a search returns one listing at most for each site path: when a
/// visitor searches by a term.
pub open spec fn deduplicates(caller: Option<Caller>, filters: FilterSpec) -> bool {
    caller is None && filters.s is Some
}

/// The view of an optional predicate.
pub open spec fn predicate_of(predicate: Option<Predicate>) -> Option<PredicateView> {
    match predicate {
        Some(p) => Some(p@),
        None => None,
    }
}

fn ilike_patterns(column: TextColumn, term: &str) -> (predicate: Predicate)
    ensures
        predicate@ == ilike_any(column, term@),
{
    let mut at_end = String::from_str("%");
    at_end.append(term);
    let mut inside = String::from_str("%");
    inside.append(term);
    inside.append("%");
    let mut at_start = String::from_str(term);
    at_start.append("%");
    Predicate::ILike(column, at_end).or(Predicate::ILike(column, inside)).or(
        Predicate::ILike(column, at_start),
    )
}

/// The condition that a search term stands for under a way of matching.
pub fn search_condition(term: &str, matching: SearchMatching) -> (predicate: Predicate)
    ensures
        predicate@ == search_of(term@, matching),
{
    match parse_i32(term) {
        Some(id) => Predicate::Equals(Field::Id(id)),
        None => match matching {
            SearchMatching::Ranked => Predicate::Similar(
                TextColumn::SitePath,
                String::from_str(term),
                MIN_SIMILARITY_PERCENT,
            ),
            SearchMatching::Inclusive => ilike_patterns(TextColumn::Title, term).or(
                ilike_patterns(TextColumn::Street, term),
            ),
        },
    }
}

pub(crate) fn narrow(base: Predicate, extra: Option<Predicate>) -> (predicate: Predicate)
    ensures
        predicate@ == narrowed(base@, predicate_of(extra)),
{
    match extra {
        Some(condition) => base.and(condition),
        None => base,
    }
}

pub(crate) fn text_condition(
    column: TextColumn,
    wanted: &Option<String>,
) -> (condition: Option<Predicate>)
    ensures
        predicate_of(condition) == text_filter(column, optional_text(*wanted)),
{
    match wanted {
        Some(text) => Some(Predicate::Equals(Field::Text(column, to_lowercase(text.as_str())))),
        None => None,
    }
}

/// Narrows a base predicate by a search condition and by every filter of
/// the query that is set.
pub fn apply_filters(
    base: Predicate,
    search: Option<Predicate>,
    query: &FindPropertyQuery,
) -> (predicate: Predicate)
    ensures
        predicate@ == filtered(base@, predicate_of(search), query@),
{
    let p0 = narrow(base, search);
    let p1 = narrow(p0, text_condition(TextColumn::Province, &query.province));
    let p2 = narrow(p1, text_condition(TextColumn::Regency, &query.regency));
    let p3 = narrow(p2, text_condition(TextColumn::Street, &query.street));
    let popularity = match query.is_popular {
        Some(value) => Some(Predicate::Contains(String::from_str("is_popular"), value)),
        None => None,
    };
    let p4 = narrow(p3, popularity);
    let availability = match query.sold_status {
        Some(status) => Some(Predicate::Equals(Field::Sold(status))),
        None => None,
    };
    let p5 = narrow(p4, availability);
    let offer = match query.purchase_status {
        Some(status) => Some(
            Predicate::Equals(Field::Purchase(status)).or(
                Predicate::Equals(Field::Purchase(PurchaseStatus::ForSaleOrRent)),
            ),
        ),
        None => None,
    };
    let p6 = narrow(p5, offer);
    let p7 = narrow(p6, text_condition(TextColumn::BuildingType, &query.building_type));
    let developer = match query.developer_id {
        Some(id) => Some(Predicate::Equals(Field::Developer(id))),
        None => None,
    };
    narrow(p7, developer)
}

fn search_term_condition(
    term: &Option<String>,
    matching: SearchMatching,
) -> (condition: Option<Predicate>)
    ensures
        predicate_of(condition) == search_filter(optional_text(*term), matching),
{
    match term {
        Some(t) => Some(search_condition(t.as_str(), matching)),
        None => None,
    }
}

/// The condition on the listings that a caller's search returns.
pub fn retrieval_condition(
    caller: &Option<Caller>,
    query: &FindPropertyQuery,
) -> (predicate: Predicate)
    ensures
        predicate@ == retrieval_predicate(*caller, query@),
{
    apply_filters(
        visibility(caller),
        search_term_condition(&query.s, SearchMatching::Ranked),
        query,
    )
}

/// The condition on the listings that a caller's search counts.
pub fn count_condition(caller: &Option<Caller>, query: &FindPropertyQuery) -> (predicate: Predicate)
    ensures
        predicate@ == count_predicate(*caller, query@),
{
    apply_filters(
        visibility(caller),
        search_term_condition(&query.s, SearchMatching::Inclusive),
        query,
    )
}

/// The ranking resolver: the order in which a search returns its results.
pub fn order(query: &FindPropertyQuery) -> (spec: OrderSpec)
    ensures
        spec@ == order_of(query@),
        query.sort == Some(FindPropertySort::LowestPrice) ==> spec@ == OrderSpecView::PriceAscending,
        query.sort == Some(FindPropertySort::HighestPrice) ==> spec@
            == OrderSpecView::PriceDescending,
{
    match query.sort {
        Some(FindPropertySort::LowestPrice) => OrderSpec::PriceAscending,
        Some(FindPropertySort::HighestPrice) => OrderSpec::PriceDescending,
        None => match &query.s {
            Some(term) => match parse_i32(term.as_str()) {
                Some(_) => OrderSpec::IdDescending,
                None => OrderSpec::SitePathThenSimilarity(term.clone()),
            },
            None => OrderSpec::IdDescending,
        },
    }
}

} // verus!
