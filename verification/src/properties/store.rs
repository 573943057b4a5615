//! A model of the listing store: which of its rows a query admits, what it
//! returns of them and how many it reports. Every listing is taken to have
//! its owning agent in the store, so that joining the two drops no row.

use crate::properties::model::{DeleteAction, PropertyView};
use crate::properties::pagination::PageWindow;
use crate::properties::predicate::{PredicateView, TextMatching};
use crate::properties::query::{OrderSpecView, RetrievalQueryView};
use vstd::prelude::*;

verus! {

/// Whether no two rows of a store share an id.
pub open spec fn distinct_ids(store: Seq<PropertyView>) -> bool {
    forall|i: int, j: int| 0 <= i < j < store.len() ==> store[i].id != store[j].id
}

/// The rows of a store that meet a predicate, in the order of the store.
pub open spec fn admitted(
    store: Seq<PropertyView>,
    predicate: PredicateView,
    matching: TextMatching,
) -> Seq<PropertyView> {
    store.filter(|row: PropertyView| predicate.holds(row, matching))
}

/// The number that a count query reports: how many rows meet its
/// predicate.
pub open spec fn counted(
    store: Seq<PropertyView>,
    predicate: PredicateView,
    matching: TextMatching,
) -> nat {
    admitted(store, predicate, matching).len()
}

/// The site paths that occur among some rows.
pub open spec fn site_paths_among(rows: Seq<PropertyView>) -> Set<Seq<char>> {
    rows.map_values(|row: PropertyView| row.site_path).to_set()
}

/// The number of rows that a retrieval returns once its window is taken
/// away: one for each site path among the admitted rows where it returns
/// one listing per site path, and every admitted row otherwise.
pub open spec fn retrieved(
    store: Seq<PropertyView>,
    query: RetrievalQueryView,
    matching: TextMatching,
) -> nat {
    if query.distinct_on_site_path {
        site_paths_among(admitted(store, query.predicate, matching)).len()
    } else {
        admitted(store, query.predicate, matching).len()
    }
}

impl OrderSpecView {
    /// Whether the order lets `first` stand before `second` among the
    /// results. Site paths are compared in the store's order of texts, and
    /// listings of one site path by their similarity to the term.
    pub open spec fn allows(
        self,
        first: PropertyView,
        second: PropertyView,
        matching: TextMatching,
    ) -> bool {
        match self {
            OrderSpecView::PriceAscending => first.price <= second.price,
            OrderSpecView::PriceDescending => first.price >= second.price,
            OrderSpecView::IdDescending => first.id >= second.id,
            OrderSpecView::SitePathThenSimilarity(term) => if first.site_path
                == second.site_path {
                (matching.as_similar)(first.site_path, second.site_path, term)
            } else {
                (matching.sorts_before)(first.site_path, second.site_path)
            },
        }
    }
}

/// Whether rows stand in an order.
pub open spec fn in_order(
    rows: Seq<PropertyView>,
    order: OrderSpecView,
    matching: TextMatching,
) -> bool {
    forall|i: int, j: int|
        0 <= i < j < rows.len() ==> order.allows(#[trigger] rows[i], #[trigger] rows[j], matching)
}

/// Whether `full` is what a retrieval returns of a store before its window
/// is applied: rows in the order asked for that are, where one listing is
/// returned per site path, admitted rows of pairwise different site paths
/// among which every admitted site path occurs; and otherwise the admitted
/// rows, each as often as the store holds it.
pub open spec fn is_full_answer(
    store: Seq<PropertyView>,
    query: RetrievalQueryView,
    matching: TextMatching,
    full: Seq<PropertyView>,
) -> bool {
    let rows = admitted(store, query.predicate, matching);
    &&& in_order(full, query.order, matching)
    &&& if query.distinct_on_site_path {
        &&& forall|i: int| 0 <= i < full.len() ==> rows.contains(#[trigger] full[i])
        &&& forall|i: int, j: int|
            0 <= i < j < full.len() ==> (#[trigger] full[i]).site_path != (
            #[trigger] full[j]).site_path
        &&& forall|k: int|
            0 <= k < rows.len() ==> site_paths_among(full).contains((#[trigger] rows[k]).site_path)
    } else {
        full.to_multiset() == rows.to_multiset()
    }
}

/// The slice of the results that a window keeps: `limit` rows at most,
/// behind the first `offset` rows; and all of them where there is no
/// window.
pub open spec fn windowed(full: Seq<PropertyView>, window: Option<PageWindow>) -> Seq<
    PropertyView,
> {
    match window {
        None => full,
        Some(w) => {
            let start = if w.offset <= full.len() {
                w.offset as int
            } else {
                full.len() as int
            };
            let end = if w.offset + w.limit <= full.len() {
                w.offset + w.limit
            } else {
                full.len() as int
            };
            full.subrange(start, end)
        },
    }
}

/// Whether `rows` is what a retrieval returns of a store. A window with a
/// negative limit or offset has no answer: the store refuses it.
pub open spec fn is_answer(
    store: Seq<PropertyView>,
    query: RetrievalQueryView,
    matching: TextMatching,
    rows: Seq<PropertyView>,
) -> bool {
    &&& query.window matches Some(w) ==> w.offset >= 0 && w.limit >= 0
    &&& exists|full: Seq<PropertyView>| #[trigger]
        is_full_answer(store, query, matching, full) && rows == windowed(full, query.window)
}

/// The store after an action was taken on every row with the given id.
pub open spec fn after_delete(store: Seq<PropertyView>, id: i32, action: DeleteAction) -> Seq<
    PropertyView,
> {
    match action {
        DeleteAction::Remove => store.filter(|row: PropertyView| row.id != id),
        DeleteAction::MarkDeleted => store.map_values(
            |row: PropertyView|
                if row.id == id {
                    row.marked_deleted()
                } else {
                    row
                },
        ),
    }
}

/// Some rows followed by one more where it meets a predicate, and as they
/// are where it does not.
pub open spec fn extended(
    rows: Seq<PropertyView>,
    next: PropertyView,
    predicate: PredicateView,
    matching: TextMatching,
) -> Seq<PropertyView> {
    if predicate.holds(next, matching) {
        rows.push(next)
    } else {
        rows
    }
}

/// The admitted rows of a store are those of the store without its last
/// row, followed by the last row where it meets the predicate.
pub proof fn admitted_unfolds(
    store: Seq<PropertyView>,
    predicate: PredicateView,
    matching: TextMatching,
)
    requires
        store.len() > 0,
    ensures
        admitted(store, predicate, matching) == extended(
            admitted(store.drop_last(), predicate, matching),
            store.last(),
            predicate,
            matching,
        ),
{
    reveal(Seq::filter);
}

/// Every admitted row is a row of the store that meets the predicate, and
/// every row of the store that meets the predicate is admitted.
pub proof fn admitted_exactly(
    store: Seq<PropertyView>,
    predicate: PredicateView,
    matching: TextMatching,
)
    ensures
        forall|row: PropertyView| #[trigger]
            admitted(store, predicate, matching).contains(row) <==> store.contains(row)
                && predicate.holds(row, matching),
    decreases store.len(),
{
    let rows = admitted(store, predicate, matching);
    if store.len() == 0 {
        reveal(Seq::filter);
        assert forall|row: PropertyView| #[trigger]
            rows.contains(row) <==> store.contains(row) && predicate.holds(row, matching) by {}
    } else {
        let rest = store.drop_last();
        let last = store.last();
        admitted_unfolds(store, predicate, matching);
        admitted_exactly(rest, predicate, matching);
        let before = admitted(rest, predicate, matching);
        assert forall|row: PropertyView| #[trigger]
            rows.contains(row) <==> store.contains(row) && predicate.holds(row, matching) by {
            if rows.contains(row) {
                let i = choose|i: int| 0 <= i < rows.len() && rows[i] == row;
                if i < before.len() {
                    assert(before[i] == row);
                    assert(before.contains(row));
                    let j = choose|j: int| 0 <= j < rest.len() && rest[j] == row;
                    assert(store[j] == row);
                } else {
                    assert(row == last);
                    assert(store[store.len() - 1] == row);
                }
            }
            if store.contains(row) && predicate.holds(row, matching) {
                let j = choose|j: int| 0 <= j < store.len() && store[j] == row;
                if j < rest.len() {
                    assert(rest[j] == row);
                    assert(rest.contains(row));
                    assert(before.contains(row));
                    let i = choose|i: int| 0 <= i < before.len() && before[i] == row;
                    assert(rows[i] == row);
                } else {
                    assert(rows[rows.len() - 1] == row);
                }
            }
        }
    }
}

/// Two predicates that the rows of a store meet alike admit the same rows.
pub proof fn admitted_alike(
    store: Seq<PropertyView>,
    first: PredicateView,
    second: PredicateView,
    matching: TextMatching,
)
    requires
        forall|i: int|
            0 <= i < store.len() ==> first.holds(#[trigger] store[i], matching) == second.holds(
                store[i],
                matching,
            ),
    ensures
        admitted(store, first, matching) == admitted(store, second, matching),
    decreases store.len(),
{
    if store.len() == 0 {
        reveal(Seq::filter);
    } else {
        admitted_unfolds(store, first, matching);
        admitted_unfolds(store, second, matching);
        let rest = store.drop_last();
        assert forall|i: int| 0 <= i < rest.len() implies first.holds(
            #[trigger] rest[i],
            matching,
        ) == second.holds(rest[i], matching) by {
            assert(rest[i] == store[i]);
        }
        admitted_alike(rest, first, second, matching);
        assert(store.last() == store[store.len() - 1]);
    }
}

/// Where ids are distinct, a predicate that only rows of one id meet
/// admits one row at most.
pub proof fn admitted_by_id(
    store: Seq<PropertyView>,
    predicate: PredicateView,
    matching: TextMatching,
    id: i32,
)
    requires
        distinct_ids(store),
        forall|i: int|
            0 <= i < store.len() && predicate.holds(#[trigger] store[i], matching) ==> store[i].id
                == id,
    ensures
        admitted(store, predicate, matching).len() <= 1,
    decreases store.len(),
{
    if store.len() == 0 {
        reveal(Seq::filter);
    } else {
        let rest = store.drop_last();
        let last = store.last();
        admitted_unfolds(store, predicate, matching);
        assert forall|i: int|
            0 <= i < rest.len() && predicate.holds(#[trigger] rest[i], matching) implies rest[i].id
            == id by {
            assert(rest[i] == store[i]);
        }
        assert(distinct_ids(rest)) by {
            assert forall|i: int, j: int| 0 <= i < j < rest.len() implies rest[i].id
                != rest[j].id by {
                assert(rest[i] == store[i] && rest[j] == store[j]);
            }
        }
        admitted_by_id(rest, predicate, matching, id);
        let before = admitted(rest, predicate, matching);
        if predicate.holds(last, matching) && before.len() > 0 {
            admitted_exactly(rest, predicate, matching);
            assert(before.contains(before[0]));
            let j = choose|j: int| 0 <= j < rest.len() && rest[j] == before[0];
            assert(store[j] == before[0]);
            assert(store[j].id == id);
            assert(store[store.len() - 1].id == id);
            assert(false);
        }
    }
}

/// One row at most has as many site paths as rows.
pub proof fn site_paths_of_one(rows: Seq<PropertyView>)
    requires
        rows.len() <= 1,
    ensures
        site_paths_among(rows).len() == rows.len(),
{
    let paths = rows.map_values(|row: PropertyView| row.site_path);
    if rows.len() == 0 {
        paths.lemma_cardinality_of_empty_set_is_0();
    } else {
        assert(paths.no_duplicates());
        paths.unique_seq_to_set();
    }
}

/// Every row that a retrieval returns before its window is applied is an
/// admitted row of the store.
pub proof fn full_answer_is_admitted(
    store: Seq<PropertyView>,
    query: RetrievalQueryView,
    matching: TextMatching,
    full: Seq<PropertyView>,
)
    requires
        is_full_answer(store, query, matching, full),
    ensures
        forall|k: int|
            0 <= k < full.len() ==> admitted(store, query.predicate, matching).contains(
                #[trigger] full[k],
            ),
{
    let kept = admitted(store, query.predicate, matching);
    assert forall|k: int| 0 <= k < full.len() implies kept.contains(#[trigger] full[k]) by {
        if !query.distinct_on_site_path {
            full.to_multiset_ensures();
            kept.to_multiset_ensures();
            assert(full.contains(full[k]));
            assert(full.to_multiset().count(full[k]) > 0);
            assert(kept.to_multiset().count(full[k]) > 0);
        }
    }
}

/// Every row of an answer is an admitted row of the store.
pub proof fn answer_is_admitted(
    store: Seq<PropertyView>,
    query: RetrievalQueryView,
    matching: TextMatching,
    rows: Seq<PropertyView>,
)
    requires
        is_answer(store, query, matching, rows),
    ensures
        forall|i: int|
            0 <= i < rows.len() ==> admitted(store, query.predicate, matching).contains(
                #[trigger] rows[i],
            ),
{
    let full = choose|full: Seq<PropertyView>| #[trigger]
        is_full_answer(store, query, matching, full) && rows == windowed(full, query.window);
    let kept = admitted(store, query.predicate, matching);
    full_answer_is_admitted(store, query, matching, full);
    assert forall|i: int| 0 <= i < rows.len() implies kept.contains(#[trigger] rows[i]) by {
        match query.window {
            None => {},
            Some(w) => {
                let start = if w.offset <= full.len() {
                    w.offset as int
                } else {
                    full.len() as int
                };
                assert(rows[i] == full[start + i]);
            },
        }
    }
}

/// Before its window is applied, a retrieval returns as many rows as
/// [`retrieved`] tells.
pub proof fn full_answer_len(
    store: Seq<PropertyView>,
    query: RetrievalQueryView,
    matching: TextMatching,
    full: Seq<PropertyView>,
)
    requires
        is_full_answer(store, query, matching, full),
    ensures
        full.len() == retrieved(store, query, matching),
{
    let kept = admitted(store, query.predicate, matching);
    if query.distinct_on_site_path {
        let path = |row: PropertyView| row.site_path;
        let shown = full.map_values(path);
        let known = kept.map_values(path);
        assert(shown.no_duplicates());
        shown.unique_seq_to_set();
        assert(shown.to_set() =~= known.to_set()) by {
            assert forall|p: Seq<char>| shown.to_set().contains(p) implies known.to_set().contains(
                p,
            ) by {
                let i = choose|i: int| 0 <= i < shown.len() && shown[i] == p;
                assert(kept.contains(full[i]));
                let k = choose|k: int| 0 <= k < kept.len() && kept[k] == full[i];
                assert(known[k] == p);
            }
            assert forall|p: Seq<char>| known.to_set().contains(p) implies shown.to_set().contains(
                p,
            ) by {
                let k = choose|k: int| 0 <= k < known.len() && known[k] == p;
                assert(site_paths_among(full).contains(kept[k].site_path));
            }
        }
    } else {
        full.to_multiset_ensures();
        kept.to_multiset_ensures();
    }
}

/// Where a single row is admitted, a retrieval returns that row and no
/// other before its window is applied.
pub proof fn full_answer_of_one(
    store: Seq<PropertyView>,
    query: RetrievalQueryView,
    matching: TextMatching,
    full: Seq<PropertyView>,
    row: PropertyView,
)
    requires
        is_full_answer(store, query, matching, full),
        admitted(store, query.predicate, matching) == seq![row],
    ensures
        full == seq![row],
{
    let kept = admitted(store, query.predicate, matching);
    full_answer_len(store, query, matching, full);
    full_answer_is_admitted(store, query, matching, full);
    site_paths_of_one(kept);
    assert(full.len() == 1);
    assert(kept.contains(full[0]));
    assert(full =~= seq![row]);
}

} // verus!
