//! Composed queries: what the store is asked to run.

use crate::properties::pagination::PageWindow;
use crate::properties::predicate::{Predicate, PredicateView};
use crate::schema::Column;
use vstd::prelude::*;

verus! {

/// The order in which a retrieval returns its rows.
#[derive(Clone, Debug, PartialEq, Eq)]
pub enum OrderSpec {
    /// Cheapest first.
    PriceAscending,
    /// Dearest first.
    PriceDescending,
    /// By site path in alphabetical order and, within one site path, the
    /// listing most similar to the term first.
    SitePathThenSimilarity(String),
    /// Newest first.
    IdDescending,
}

/// The mathematical content of an [`OrderSpec`].
pub enum OrderSpecView {
    PriceAscending,
    PriceDescending,
    SitePathThenSimilarity(Seq<char>),
    IdDescending,
}

impl View for OrderSpec {
    type V = OrderSpecView;

    open spec fn view(&self) -> OrderSpecView {
        match self {
            OrderSpec::PriceAscending => OrderSpecView::PriceAscending,
            OrderSpec::PriceDescending => OrderSpecView::PriceDescending,
            OrderSpec::SitePathThenSimilarity(term) => OrderSpecView::SitePathThenSimilarity(term@),
            OrderSpec::IdDescending => OrderSpecView::IdDescending,
        }
    }
}

/// A query that returns listings, each with its owning agent.
#[derive(Debug, PartialEq, Eq)]
pub struct RetrievalQuery {
    /// The condition that every returned listing meets.
    pub predicate: Predicate,
    /// Whether at most one listing is returned for each site path.
    pub distinct_on_site_path: bool,
    pub order: OrderSpec,
    /// The slice of the ordered rows to return; all of them where absent.
    pub window: Option<PageWindow>,
}

/// The mathematical content of a [`RetrievalQuery`].
pub struct RetrievalQueryView {
    pub predicate: PredicateView,
    pub distinct_on_site_path: bool,
    pub order: OrderSpecView,
    pub window: Option<PageWindow>,
}

impl View for RetrievalQuery {
    type V = RetrievalQueryView;

    open spec fn view(&self) -> RetrievalQueryView {
        RetrievalQueryView {
            predicate: self.predicate@,
            distinct_on_site_path: self.distinct_on_site_path,
            order: self.order@,
            window: self.window,
        }
    }
}

/// A query that counts the listings meeting a condition.
#[derive(Debug, PartialEq, Eq)]
pub struct CountQuery {
    pub predicate: Predicate,
}

impl View for CountQuery {
    type V = PredicateView;

    open spec fn view(&self) -> PredicateView {
        self.predicate@
    }
}

/// A query that returns each distinct combination of some columns once, in
/// ascending order of those columns taken in turn.
#[derive(Debug, PartialEq, Eq)]
pub struct DistinctQuery {
    pub columns: Vec<Column>,
}

impl View for DistinctQuery {
    type V = Seq<Column>;

    open spec fn view(&self) -> Seq<Column> {
        self.columns@
    }
}

} // verus!
