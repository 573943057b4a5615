//! What the composed queries mean for the listings of a store, whatever
//! the store decides where texts are matched.

use crate::agents::{AgentRole, Caller};
use crate::properties::enumerates::{PurchaseStatus, SoldStatus};
use crate::properties::filter::{FilterSpec, FindPropertySort};
use crate::properties::model::{
    by_id_of, delete_action_of, related_base, related_filters, related_of, retrieval_of,
    PropertyView,
};
use crate::properties::pagination::{offset_fits, total_pages_of, window_of};
use crate::properties::predicate::{
    FieldView, PredicateView, TextMatching, MIN_SIMILARITY_PERCENT,
};
use crate::properties::query::OrderSpecView;
use crate::properties::store::{
    admitted, admitted_alike, admitted_by_id, admitted_exactly, after_delete, answer_is_admitted,
    counted, distinct_ids, full_answer_len, full_answer_of_one, is_answer, is_full_answer,
    site_paths_of_one, windowed,
};
use crate::properties::search::{
    count_predicate, deduplicates, developer_filter, filtered, narrowed, order_of,
    popular_flag, popularity_filter, purchase_status_filter, retrieval_predicate, search_filter,
    search_of, sold_status_filter, text_filter, visibility_of, SearchMatching,
};
use crate::schema::TextColumn;
use crate::text::{lowercase, parsed_i32};
use vstd::prelude::*;

verus! {

/// An agent as the caller of a search.
pub open spec fn as_agent(user_id: u128) -> Option<Caller> {
    Some(Caller { user_id, role: AgentRole::Agent })
}

/// An admin as the caller of a search.
pub open spec fn as_admin(user_id: u128) -> Option<Caller> {
    Some(Caller { user_id, role: AgentRole::Admin })
}

/// Whether a listing can be shown beside a subject: it is another listing,
/// available and not deleted.
pub open spec fn shown_beside(subject: i32, row: PropertyView) -> bool {
    row.id != subject && !row.is_deleted && row.sold_status == SoldStatus::Available
}

/// Whether a caller may see a listing at all: a visitor what is available
/// and not deleted, an agent what is their own and not deleted, an admin
/// everything.
pub open spec fn visible_to(caller: Option<Caller>, row: PropertyView) -> bool {
    match caller {
        None => !row.is_deleted && row.sold_status == SoldStatus::Available,
        Some(c) => match c.role {
            AgentRole::Admin => true,
            AgentRole::Agent => row.user_id == c.user_id && !row.is_deleted,
        },
    }
}

/// Whether a listing passes every filter that is set, the search term
/// aside.
pub open spec fn admitted_by(filters: FilterSpec, row: PropertyView) -> bool {
    &&& filters.province matches Some(wanted) ==> row.province == lowercase(wanted)
    &&& filters.regency matches Some(wanted) ==> row.regency == lowercase(wanted)
    &&& filters.street matches Some(wanted) ==> row.street == lowercase(wanted)
    &&& filters.is_popular matches Some(wanted) ==> row.flags.contains((popular_flag(), wanted))
    &&& filters.sold_status matches Some(wanted) ==> row.sold_status == wanted
    &&& filters.purchase_status matches Some(wanted) ==> (row.purchase_status == wanted
        || row.purchase_status == PurchaseStatus::ForSaleOrRent)
    &&& filters.building_type matches Some(wanted) ==> row.building_type == lowercase(wanted)
    &&& filters.developer_id matches Some(wanted) ==> row.developer_id == Some(wanted)
}

/// Whether a listing meets an optional condition; an absent one is met.
pub open spec fn meets(
    condition: Option<PredicateView>,
    row: PropertyView,
    matching: TextMatching,
) -> bool {
    condition matches Some(c) ==> c.holds(row, matching)
}

/// A narrowed predicate is met exactly where the base and the added
/// condition are.
pub proof fn narrowed_holds(
    base: PredicateView,
    extra: Option<PredicateView>,
    row: PropertyView,
    matching: TextMatching,
)
    ensures
        narrowed(base, extra).holds(row, matching) == (base.holds(row, matching) && meets(
            extra,
            row,
            matching,
        )),
{
}

/// The visibility policy admits exactly the listings that the caller may
/// see.
pub proof fn visibility_holds(caller: Option<Caller>, row: PropertyView, matching: TextMatching)
    ensures
        visibility_of(caller).holds(row, matching) == visible_to(caller, row),
{
    reveal_with_fuel(PredicateView::holds, 2);
}

/// A filtered predicate admits exactly the listings that meet the base
/// predicate, the search condition and every filter that is set.
pub proof fn filtered_holds(
    base: PredicateView,
    search: Option<PredicateView>,
    filters: FilterSpec,
    row: PropertyView,
    matching: TextMatching,
)
    ensures
        filtered(base, search, filters).holds(row, matching) == (base.holds(row, matching)
            && meets(search, row, matching) && admitted_by(filters, row)),
{
    let p0 = narrowed(base, search);
    let p1 = narrowed(p0, text_filter(TextColumn::Province, filters.province));
    let p2 = narrowed(p1, text_filter(TextColumn::Regency, filters.regency));
    let p3 = narrowed(p2, text_filter(TextColumn::Street, filters.street));
    let p4 = narrowed(p3, popularity_filter(filters.is_popular));
    let p5 = narrowed(p4, sold_status_filter(filters.sold_status));
    let p6 = narrowed(p5, purchase_status_filter(filters.purchase_status));
    let p7 = narrowed(p6, text_filter(TextColumn::BuildingType, filters.building_type));
    narrowed_holds(base, search, row, matching);
    narrowed_holds(p0, text_filter(TextColumn::Province, filters.province), row, matching);
    narrowed_holds(p1, text_filter(TextColumn::Regency, filters.regency), row, matching);
    narrowed_holds(p2, text_filter(TextColumn::Street, filters.street), row, matching);
    narrowed_holds(p3, popularity_filter(filters.is_popular), row, matching);
    narrowed_holds(p4, sold_status_filter(filters.sold_status), row, matching);
    narrowed_holds(p5, purchase_status_filter(filters.purchase_status), row, matching);
    narrowed_holds(p6, text_filter(TextColumn::BuildingType, filters.building_type), row, matching);
    narrowed_holds(p7, developer_filter(filters.developer_id), row, matching);
    reveal_with_fuel(PredicateView::holds, 2);
}

/// Whether a column holds a term at its end, inside it or at its start,
/// letter case aside.
pub open spec fn found_in(text: Seq<char>, term: Seq<char>, matching: TextMatching) -> bool {
    ||| (matching.ilike)(text, "%"@ + term)
    ||| (matching.ilike)(text, "%"@ + term + "%"@)
    ||| (matching.ilike)(text, term + "%"@)
}

/// Whether a listing answers a search term: by its id where the term
/// spells an integer; else by a similarity of its site path beyond a tenth
/// when results are ranked, and by the term's presence in title or street
/// when they are counted.
pub open spec fn answers(
    term: Seq<char>,
    mode: SearchMatching,
    row: PropertyView,
    matching: TextMatching,
) -> bool {
    match parsed_i32(term) {
        Some(id) => row.id == id,
        None => match mode {
            SearchMatching::Ranked => (matching.similar)(
                row.site_path,
                term,
                MIN_SIMILARITY_PERCENT,
            ),
            SearchMatching::Inclusive => found_in(row.title, term, matching) || found_in(
                row.street,
                term,
                matching,
            ),
        },
    }
}

/// Whether a listing answers an optional search term; an absent one is
/// answered by every listing.
pub open spec fn answers_any(
    term: Option<Seq<char>>,
    mode: SearchMatching,
    row: PropertyView,
    matching: TextMatching,
) -> bool {
    term matches Some(t) ==> answers(t, mode, row, matching)
}

/// The condition of a search term is met exactly by the listings that
/// answer the term.
pub proof fn search_holds(
    term: Seq<char>,
    mode: SearchMatching,
    row: PropertyView,
    matching: TextMatching,
)
    ensures
        search_of(term, mode).holds(row, matching) == answers(term, mode, row, matching),
{
    reveal_with_fuel(PredicateView::holds, 4);
}

/// A search returns exactly the listings that the caller may see, that
/// answer the search term by id or similarity, and that pass every filter.
pub proof fn retrieval_holds(
    caller: Option<Caller>,
    filters: FilterSpec,
    row: PropertyView,
    matching: TextMatching,
)
    ensures
        retrieval_predicate(caller, filters).holds(row, matching) == (visible_to(caller, row)
            && answers_any(filters.s, SearchMatching::Ranked, row, matching) && admitted_by(
            filters,
            row,
        )),
{
    visibility_holds(caller, row, matching);
    filtered_holds(
        visibility_of(caller),
        search_filter(filters.s, SearchMatching::Ranked),
        filters,
        row,
        matching,
    );
    match filters.s {
        Some(term) => search_holds(term, SearchMatching::Ranked, row, matching),
        None => {},
    }
}

/// A search counts exactly the listings that the caller may see, that
/// answer the search term by id or by its presence in title or street, and
/// that pass every filter.
pub proof fn count_holds(
    caller: Option<Caller>,
    filters: FilterSpec,
    row: PropertyView,
    matching: TextMatching,
)
    ensures
        count_predicate(caller, filters).holds(row, matching) == (visible_to(caller, row)
            && answers_any(filters.s, SearchMatching::Inclusive, row, matching) && admitted_by(
            filters,
            row,
        )),
{
    visibility_holds(caller, row, matching);
    filtered_holds(
        visibility_of(caller),
        search_filter(filters.s, SearchMatching::Inclusive),
        filters,
        row,
        matching,
    );
    match filters.s {
        Some(term) => search_holds(term, SearchMatching::Inclusive, row, matching),
        None => {},
    }
}

/// With no filter set, a visitor's search returns and counts exactly the
/// listings that are available and not deleted, all of them and each once.
pub proof fn visitor_sees_available_listings(row: PropertyView, matching: TextMatching)
    ensures
        retrieval_predicate(None, FilterSpec::unconstrained()).holds(row, matching) == (
        !row.is_deleted && row.sold_status == SoldStatus::Available),
        count_predicate(None, FilterSpec::unconstrained()).holds(row, matching) == (!row.is_deleted
            && row.sold_status == SoldStatus::Available),
        !retrieval_of(None, FilterSpec::unconstrained()).distinct_on_site_path,
        retrieval_of(None, FilterSpec::unconstrained()).window is None,
{
    retrieval_holds(None, FilterSpec::unconstrained(), row, matching);
    count_holds(None, FilterSpec::unconstrained(), row, matching);
}

/// Where the search term is absent or spells an integer, the count query
/// counts exactly the listings that the retrieval query admits.
pub proof fn count_agrees_with_retrieval(
    caller: Option<Caller>,
    filters: FilterSpec,
    row: PropertyView,
    matching: TextMatching,
)
    requires
        filters.s matches Some(term) ==> parsed_i32(term) is Some,
    ensures
        count_predicate(caller, filters).holds(row, matching) == retrieval_predicate(
            caller,
            filters,
        ).holds(row, matching),
{
    retrieval_holds(caller, filters, row, matching);
    count_holds(caller, filters, row, matching);
}

/// Whatever the filters, the search of an agent neither returns nor counts
/// a listing that another agent owns.
pub proof fn agent_sees_only_own_listings(
    agent: u128,
    filters: FilterSpec,
    row: PropertyView,
    matching: TextMatching,
)
    requires
        row.user_id != agent,
    ensures
        !retrieval_predicate(
            as_agent(agent),
            filters,
        ).holds(row, matching),
        !count_predicate(as_agent(agent), filters).holds(
            row,
            matching,
        ),
{
    let caller = as_agent(agent);
    retrieval_holds(caller, filters, row, matching);
    count_holds(caller, filters, row, matching);
}

/// A search term that spells an integer is a lookup of that id and nothing
/// else: no text is matched, in the retrieval or in the count.
pub proof fn numeric_term_is_id_lookup(
    caller: Option<Caller>,
    filters: FilterSpec,
    id: i32,
    row: PropertyView,
    matching: TextMatching,
)
    requires
        filters.s matches Some(term) && parsed_i32(term) == Some(id),
    ensures
        search_filter(filters.s, SearchMatching::Ranked) == Some(
            PredicateView::Equals(FieldView::Id(id)),
        ),
        search_filter(filters.s, SearchMatching::Inclusive) == Some(
            PredicateView::Equals(FieldView::Id(id)),
        ),
        retrieval_predicate(caller, filters).holds(row, matching) == (row.id == id && visible_to(
            caller,
            row,
        ) && admitted_by(filters, row)),
        count_predicate(caller, filters).holds(row, matching) == (row.id == id && visible_to(
            caller,
            row,
        ) && admitted_by(filters, row)),
{
    retrieval_holds(caller, filters, row, matching);
    count_holds(caller, filters, row, matching);
}

/// An explicit sort decides the order whatever the search term is.
pub proof fn explicit_sort_overrides_search(filters: FilterSpec)
    ensures
        filters.sort == Some(FindPropertySort::HighestPrice) ==> order_of(filters)
            == OrderSpecView::PriceDescending,
        filters.sort == Some(FindPropertySort::LowestPrice) ==> order_of(filters)
            == OrderSpecView::PriceAscending,
{
}

/// A filter on the offer admits, beside the listings with the offer asked
/// for, those offered for sale or rent, and no others.
pub proof fn offer_filter_admits_sentinel(
    wanted: PurchaseStatus,
    row: PropertyView,
    matching: TextMatching,
)
    ensures
        meets(purchase_status_filter(Some(wanted)), row, matching) == (row.purchase_status == wanted
            || row.purchase_status == PurchaseStatus::ForSaleOrRent),
{
    reveal_with_fuel(PredicateView::holds, 2);
}

/// The listings related to a subject never include the subject, nor a
/// listing that is deleted or no longer available; they are those among
/// the others that lie in the regency and the street asked for.
pub proof fn related_excludes_subject(
    subject: i32,
    filters: FilterSpec,
    row: PropertyView,
    matching: TextMatching,
)
    ensures
        related_of(subject, filters).predicate.holds(row, matching) == (shown_beside(subject, row)
            && admitted_by(related_filters(filters), row)),
{
    filtered_holds(related_base(subject), None, related_filters(filters), row, matching);
    reveal_with_fuel(PredicateView::holds, 3);
}

/// With no filter set, the search of a visitor returns exactly the rows of
/// the store that are available and not deleted, each as often as the
/// store holds it, and counts as many.
pub proof fn visitor_search_returns_available_listings(
    store: Seq<PropertyView>,
    matching: TextMatching,
    rows: Seq<PropertyView>,
)
    requires
        is_answer(store, retrieval_of(None, FilterSpec::unconstrained()), matching, rows),
    ensures
        forall|row: PropertyView| #[trigger]
            rows.contains(row) <==> store.contains(row) && !row.is_deleted && row.sold_status
                == SoldStatus::Available,
        rows.to_multiset() == store.filter(
            |row: PropertyView| !row.is_deleted && row.sold_status == SoldStatus::Available,
        ).to_multiset(),
        rows.len() == counted(store, count_predicate(None, FilterSpec::unconstrained()), matching),
{
    let filters = FilterSpec::unconstrained();
    let predicate = retrieval_predicate(None, filters);
    let kept = admitted(store, predicate, matching);
    assert(rows.to_multiset() == kept.to_multiset());
    rows.to_multiset_ensures();
    kept.to_multiset_ensures();
    admitted_exactly(store, predicate, matching);
    assert forall|row: PropertyView| #[trigger]
        rows.contains(row) <==> store.contains(row) && !row.is_deleted && row.sold_status
            == SoldStatus::Available by {
        visitor_sees_available_listings(row, matching);
        assert(rows.contains(row) <==> rows.to_multiset().count(row) > 0);
        assert(kept.contains(row) <==> kept.to_multiset().count(row) > 0);
    }
    assert(kept == store.filter(
        |row: PropertyView| !row.is_deleted && row.sold_status == SoldStatus::Available,
    )) by {
        available_rows_are_admitted(store, matching);
    }
    assert forall|i: int| 0 <= i < store.len() implies count_predicate(None, filters).holds(
        #[trigger] store[i],
        matching,
    ) == predicate.holds(store[i], matching) by {
        count_agrees_with_retrieval(None, filters, store[i], matching);
    }
    admitted_alike(store, count_predicate(None, filters), predicate, matching);
}

/// The rows that a visitor's unfiltered search admits are the rows of the
/// store that are available and not deleted, in the order of the store.
proof fn available_rows_are_admitted(store: Seq<PropertyView>, matching: TextMatching)
    ensures
        admitted(store, retrieval_predicate(None, FilterSpec::unconstrained()), matching)
            == store.filter(
            |row: PropertyView| !row.is_deleted && row.sold_status == SoldStatus::Available,
        ),
    decreases store.len(),
{
    reveal(Seq::filter);
    if store.len() > 0 {
        available_rows_are_admitted(store.drop_last(), matching);
        visitor_sees_available_listings(store.last(), matching);
    }
}

/// Where the search term is absent or spells an integer, and no two rows
/// of the store share an id, the count query reports the number of rows
/// that the retrieval returns once its window is taken away.
pub proof fn count_equals_retrieved(
    store: Seq<PropertyView>,
    caller: Option<Caller>,
    filters: FilterSpec,
    matching: TextMatching,
    full: Seq<PropertyView>,
)
    requires
        distinct_ids(store),
        filters.s matches Some(term) ==> parsed_i32(term) is Some,
        is_full_answer(store, retrieval_of(caller, filters), matching, full),
    ensures
        counted(store, count_predicate(caller, filters), matching) == full.len(),
{
    let predicate = retrieval_predicate(caller, filters);
    full_answer_len(store, retrieval_of(caller, filters), matching, full);
    assert forall|i: int| 0 <= i < store.len() implies count_predicate(caller, filters).holds(
        #[trigger] store[i],
        matching,
    ) == predicate.holds(store[i], matching) by {
        count_agrees_with_retrieval(caller, filters, store[i], matching);
    }
    admitted_alike(store, count_predicate(caller, filters), predicate, matching);
    if deduplicates(caller, filters) {
        let id = parsed_i32(filters.s->0)->0;
        assert forall|i: int|
            0 <= i < store.len() && predicate.holds(#[trigger] store[i], matching) implies store[i].id
            == id by {
            numeric_term_is_id_lookup(caller, filters, id, store[i], matching);
        }
        admitted_by_id(store, predicate, matching, id);
        site_paths_of_one(admitted(store, predicate, matching));
    }
}

/// Whatever the filters, every row that the search of an agent returns is
/// owned by that agent, and so is every row that it counts.
pub proof fn agent_search_returns_only_own(
    store: Seq<PropertyView>,
    agent: u128,
    filters: FilterSpec,
    matching: TextMatching,
    rows: Seq<PropertyView>,
)
    requires
        is_answer(
            store,
            retrieval_of(as_agent(agent), filters),
            matching,
            rows,
        ),
    ensures
        forall|i: int| 0 <= i < rows.len() ==> (#[trigger] rows[i]).user_id == agent,
        forall|row: PropertyView| #[trigger]
            admitted(
                store,
                count_predicate(as_agent(agent), filters),
                matching,
            ).contains(row) ==> row.user_id == agent,
{
    let caller = as_agent(agent);
    answer_is_admitted(store, retrieval_of(caller, filters), matching, rows);
    admitted_exactly(store, retrieval_predicate(caller, filters), matching);
    admitted_exactly(store, count_predicate(caller, filters), matching);
    assert forall|i: int| 0 <= i < rows.len() implies (#[trigger] rows[i]).user_id == agent by {
        if rows[i].user_id != agent {
            agent_sees_only_own_listings(agent, filters, rows[i], matching);
        }
    }
    assert forall|row: PropertyView| #[trigger]
        admitted(store, count_predicate(caller, filters), matching).contains(
            row,
        ) implies row.user_id == agent by {
        if row.user_id != agent {
            agent_sees_only_own_listings(agent, filters, row, matching);
        }
    }
}

/// Where no two rows of the store share an id, a search by a term that
/// spells the id of a row which the caller may see and the filters admit
/// returns that row and no other before its window is applied, however
/// much other rows resemble the term; and it counts one row.
pub proof fn numeric_term_returns_that_listing(
    store: Seq<PropertyView>,
    caller: Option<Caller>,
    filters: FilterSpec,
    row: PropertyView,
    matching: TextMatching,
    full: Seq<PropertyView>,
)
    requires
        distinct_ids(store),
        store.contains(row),
        filters.s matches Some(term) && parsed_i32(term) == Some(row.id),
        visible_to(caller, row),
        admitted_by(filters, row),
        is_full_answer(store, retrieval_of(caller, filters), matching, full),
    ensures
        full == seq![row],
        counted(store, count_predicate(caller, filters), matching) == 1,
{
    let predicate = retrieval_predicate(caller, filters);
    let rows = admitted(store, predicate, matching);
    assert forall|i: int|
        0 <= i < store.len() && predicate.holds(#[trigger] store[i], matching) implies store[i].id
        == row.id by {
        numeric_term_is_id_lookup(caller, filters, row.id, store[i], matching);
    }
    admitted_by_id(store, predicate, matching, row.id);
    admitted_exactly(store, predicate, matching);
    numeric_term_is_id_lookup(caller, filters, row.id, row, matching);
    assert(rows.contains(row));
    assert(rows =~= seq![row]);
    full_answer_of_one(store, retrieval_of(caller, filters), matching, full, row);
    assert forall|i: int| 0 <= i < store.len() implies count_predicate(caller, filters).holds(
        #[trigger] store[i],
        matching,
    ) == predicate.holds(store[i], matching) by {
        count_agrees_with_retrieval(caller, filters, store[i], matching);
    }
    admitted_alike(store, count_predicate(caller, filters), predicate, matching);
}

/// Once an agent has deleted a listing, the store still holds its row,
/// flagged as deleted, and a lookup by its id returns that row; but no
/// search of that agent, whatever its filters, returns or counts a row of
/// that id.
pub proof fn soft_deleted_listing_leaves_owner_search(
    store: Seq<PropertyView>,
    row: PropertyView,
    agent: u128,
    filters: FilterSpec,
    matching: TextMatching,
    found: Seq<PropertyView>,
    rows: Seq<PropertyView>,
)
    requires
        distinct_ids(store),
        store.contains(row),
        is_full_answer(
            after_delete(store, row.id, delete_action_of(AgentRole::Agent)),
            by_id_of(row.id),
            matching,
            found,
        ),
        is_answer(
            after_delete(store, row.id, delete_action_of(AgentRole::Agent)),
            retrieval_of(as_agent(agent), filters),
            matching,
            rows,
        ),
    ensures
        found == seq![row.marked_deleted()],
        forall|i: int| 0 <= i < rows.len() ==> (#[trigger] rows[i]).id != row.id,
        forall|counted_row: PropertyView| #[trigger]
            admitted(
                after_delete(store, row.id, delete_action_of(AgentRole::Agent)),
                count_predicate(as_agent(agent), filters),
                matching,
            ).contains(counted_row) ==> counted_row.id != row.id,
{
    let caller = as_agent(agent);
    let after = after_delete(store, row.id, delete_action_of(AgentRole::Agent));
    let by_id = by_id_of(row.id).predicate;
    let j = choose|j: int| 0 <= j < store.len() && store[j] == row;
    assert(after[j] == row.marked_deleted());
    assert(after.contains(row.marked_deleted()));
    assert(distinct_ids(after)) by {
        assert forall|a: int, b: int| 0 <= a < b < after.len() implies after[a].id
            != after[b].id by {
            assert(after[a].id == store[a].id && after[b].id == store[b].id);
        }
    }
    assert forall|i: int|
        0 <= i < after.len() && by_id.holds(#[trigger] after[i], matching) implies after[i].id
        == row.id by {}
    admitted_by_id(after, by_id, matching, row.id);
    admitted_exactly(after, by_id, matching);
    assert(admitted(after, by_id, matching).contains(row.marked_deleted()));
    assert(admitted(after, by_id, matching) =~= seq![row.marked_deleted()]);
    full_answer_of_one(after, by_id_of(row.id), matching, found, row.marked_deleted());

    answer_is_admitted(after, retrieval_of(caller, filters), matching, rows);
    admitted_exactly(after, retrieval_predicate(caller, filters), matching);
    admitted_exactly(after, count_predicate(caller, filters), matching);
    assert forall|other: PropertyView| after.contains(other) && other.id == row.id implies
        other.is_deleted by {
        let k = choose|k: int| 0 <= k < after.len() && after[k] == other;
        assert(after[k] == if store[k].id == row.id {
            store[k].marked_deleted()
        } else {
            store[k]
        });
    }
    assert forall|i: int| 0 <= i < rows.len() implies (#[trigger] rows[i]).id != row.id by {
        retrieval_holds(caller, filters, rows[i], matching);
    }
    assert forall|counted_row: PropertyView| #[trigger]
        admitted(after, count_predicate(caller, filters), matching).contains(
            counted_row,
        ) implies counted_row.id != row.id by {
        count_holds(caller, filters, counted_row, matching);
    }
}

/// The filters of a search by a term and nothing else.
pub open spec fn term_filters(term: Seq<char>) -> FilterSpec {
    FilterSpec { s: Some(term), ..FilterSpec::unconstrained() }
}

/// Once an agent has deleted a listing, an admin who searches by a term
/// that spells its id is still returned its row, flagged as deleted, and
/// no other.
pub proof fn soft_deleted_listing_stays_in_admin_search(
    store: Seq<PropertyView>,
    row: PropertyView,
    admin: u128,
    term: Seq<char>,
    matching: TextMatching,
    seen: Seq<PropertyView>,
)
    requires
        distinct_ids(store),
        store.contains(row),
        parsed_i32(term) == Some(row.id),
        is_full_answer(
            after_delete(store, row.id, delete_action_of(AgentRole::Agent)),
            retrieval_of(as_admin(admin), term_filters(term)),
            matching,
            seen,
        ),
    ensures
        seen == seq![row.marked_deleted()],
{
    let after = after_delete(store, row.id, delete_action_of(AgentRole::Agent));
    let j = choose|j: int| 0 <= j < store.len() && store[j] == row;
    assert(after[j] == row.marked_deleted());
    assert(after.contains(row.marked_deleted()));
    assert(distinct_ids(after)) by {
        assert forall|a: int, b: int| 0 <= a < b < after.len() implies after[a].id
            != after[b].id by {
            assert(after[a].id == store[a].id && after[b].id == store[b].id);
        }
    }
    numeric_term_returns_that_listing(
        after,
        as_admin(admin),
        term_filters(term),
        row.marked_deleted(),
        matching,
        seen,
    );
}

/// Whatever the filters, the listings returned beside a subject are rows
/// of the store other than the subject, available and not deleted.
pub proof fn related_search_excludes_subject(
    store: Seq<PropertyView>,
    subject: i32,
    filters: FilterSpec,
    matching: TextMatching,
    rows: Seq<PropertyView>,
)
    requires
        is_answer(store, related_of(subject, filters), matching, rows),
    ensures
        forall|i: int|
            0 <= i < rows.len() ==> store.contains(#[trigger] rows[i]) && shown_beside(
                subject,
                rows[i],
            ),
{
    answer_is_admitted(store, related_of(subject, filters), matching, rows);
    admitted_exactly(store, related_of(subject, filters).predicate, matching);
    assert forall|i: int| 0 <= i < rows.len() implies store.contains(#[trigger] rows[i])
        && shown_beside(subject, rows[i]) by {
        related_excludes_subject(subject, filters, rows[i], matching);
    }
}

/// The rows that a page shows of the results of a search.
pub open spec fn page_of(full: Seq<PropertyView>, page: i64, limit: i64) -> Seq<PropertyView> {
    windowed(full, window_of(Some(page), Some(limit)))
}

/// Pages cut the results into runs of `limit` rows. Each page before the
/// last one counted is full; the last one counted holds what is left over,
/// which is nothing where the number of results is a multiple of the
/// limit; and no page behind it holds anything.
pub proof fn pages_partition_results(full: Seq<PropertyView>, page: i64, limit: i64)
    requires
        page >= 1,
        limit >= 1,
        full.len() <= i64::MAX,
        offset_fits(Some(page), Some(limit)),
    ensures
        page < total_pages_of(full.len() as i64, Some(limit)) ==> page_of(full, page, limit)
            == full.subrange((page - 1) * limit, page * limit),
        page == total_pages_of(full.len() as i64, Some(limit)) ==> page_of(full, page, limit)
            == full.subrange((page - 1) * limit, full.len() as int),
        page == total_pages_of(full.len() as i64, Some(limit)) ==> page_of(full, page, limit).len()
            == (full.len() as int) % (limit as int),
        page > total_pages_of(full.len() as i64, Some(limit)) ==> page_of(full, page, limit).len()
            == 0,
{
    let n = full.len() as int;
    let l = limit as int;
    let p = page as int;
    let q = n / l;
    assert(n == q * l + n % l && 0 <= n % l < l) by (nonlinear_arith)
        requires
            l >= 1,
            n >= 0,
            q == n / l,
    ;
    assert((p - 1) * l + l == p * l) by (nonlinear_arith);
    if p <= q {
        assert(p * l <= q * l) by (nonlinear_arith)
            requires
                p <= q,
                l >= 1,
        ;
    } else if p == q + 1 {
        assert((p - 1) * l == q * l);
    } else {
        assert((p - 1) * l >= (q + 1) * l) by (nonlinear_arith)
            requires
                p - 1 >= q + 1,
                l >= 1,
        ;
        assert((q + 1) * l == q * l + l) by (nonlinear_arith);
    }
}

} // verus!
