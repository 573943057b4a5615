//! Listings as the rules see them, and the queries that the store is asked
//! to run over them.

use crate::agents::{AgentRole, Caller};
use crate::properties::enumerates::{PurchaseStatus, SoldStatus};
use crate::properties::filter::{FilterSpec, FindPropertyQuery};
use crate::properties::pagination::{offset_fits, page_window, window_of};
use crate::properties::predicate::{Field, FieldView, Predicate, PredicateView};
use crate::properties::query::{
    CountQuery, DistinctQuery, OrderSpec, OrderSpecView, RetrievalQuery, RetrievalQueryView,
};
use crate::properties::search::{
    count_condition, count_predicate, deduplicates, filtered, narrow, order, order_of,
    retrieval_condition, retrieval_predicate, text_condition,
};
use crate::schema::{Column, TextColumn};
use vstd::prelude::*;

verus! {

/// One boolean entry of a listing's configuration bag.
#[derive(Clone, Debug, PartialEq, Eq)]
pub struct ConfigFlag {
    pub name: String,
    pub value: bool,
}

/// What the rules read of a stored listing.
#[derive(Clone, Debug, PartialEq, Eq)]
pub struct Property {
    pub id: i32,
    pub user_id: u128,
    pub site_path: String,
    pub title: String,
    pub province: String,
    pub regency: String,
    pub street: String,
    pub price: i64,
    pub purchase_status: PurchaseStatus,
    pub sold_status: SoldStatus,
    pub building_type: String,
    pub is_deleted: bool,
    pub configurations: Vec<ConfigFlag>,
    pub developer_id: Option<i32>,
}

/// The mathematical content of a [`Property`].
pub struct PropertyView {
    pub id: i32,
    pub user_id: u128,
    pub site_path: Seq<char>,
    pub title: Seq<char>,
    pub province: Seq<char>,
    pub regency: Seq<char>,
    pub street: Seq<char>,
    pub price: i64,
    pub purchase_status: PurchaseStatus,
    pub sold_status: SoldStatus,
    pub building_type: Seq<char>,
    pub is_deleted: bool,
    /// The boolean entries of the configuration bag, each as name and value.
    pub flags: Set<(Seq<char>, bool)>,
    pub developer_id: Option<i32>,
}

/// The set of entries that a list of configuration flags holds.
pub open spec fn flag_set(flags: Seq<ConfigFlag>) -> Set<(Seq<char>, bool)> {
    Set::new(
        |entry: (Seq<char>, bool)|
            exists|i: int|
                0 <= i < flags.len() && (#[trigger] flags[i]).name@ == entry.0 && flags[i].value
                    == entry.1,
    )
}

impl View for Property {
    type V = PropertyView;

    open spec fn view(&self) -> PropertyView {
        PropertyView {
            id: self.id,
            user_id: self.user_id,
            site_path: self.site_path@,
            title: self.title@,
            province: self.province@,
            regency: self.regency@,
            street: self.street@,
            price: self.price,
            purchase_status: self.purchase_status,
            sold_status: self.sold_status,
            building_type: self.building_type@,
            is_deleted: self.is_deleted,
            flags: flag_set(self.configurations@),
            developer_id: self.developer_id,
        }
    }
}

impl PropertyView {
    /// The text that a listing holds in a column.
    pub open spec fn text(self, column: TextColumn) -> Seq<char> {
        match column {
            TextColumn::SitePath => self.site_path,
            TextColumn::Title => self.title,
            TextColumn::Province => self.province,
            TextColumn::Regency => self.regency,
            TextColumn::Street => self.street,
            TextColumn::BuildingType => self.building_type,
        }
    }
}

impl Property {
    /// The text that this listing holds in a column.
    pub fn text(&self, column: TextColumn) -> (text: &String)
        ensures
            text@ == self@.text(column),
    {
        match column {
            TextColumn::SitePath => &self.site_path,
            TextColumn::Title => &self.title,
            TextColumn::Province => &self.province,
            TextColumn::Regency => &self.regency,
            TextColumn::Street => &self.street,
            TextColumn::BuildingType => &self.building_type,
        }
    }

    /// Whether the configuration bag holds `name` with the value `value`.
    pub fn has_flag(&self, name: &String, value: bool) -> (found: bool)
        ensures
            found == self@.flags.contains((name@, value)),
    {
        let mut i: usize = 0;
        while i < self.configurations.len()
            invariant
                i <= self.configurations.len(),
                forall|k: int|
                    0 <= k < i ==> !((#[trigger] self.configurations@[k]).name@ == name@
                        && self.configurations@[k].value == value),
            decreases self.configurations.len() - i,
        {
            if self.configurations[i].name == *name && self.configurations[i].value == value {
                return true;
            }
            i += 1;
        }
        false
    }
}

/// The query that a caller's search runs to fetch its listings.
pub open spec fn retrieval_of(caller: Option<Caller>, filters: FilterSpec) -> RetrievalQueryView {
    RetrievalQueryView {
        predicate: retrieval_predicate(caller, filters),
        distinct_on_site_path: deduplicates(caller, filters),
        order: order_of(filters),
        window: window_of(filters.page, filters.limit),
    }
}

/// The query that fetches one listing by its id, whoever asks.
pub open spec fn by_id_of(id: i32) -> RetrievalQueryView {
    RetrievalQueryView {
        predicate: PredicateView::Equals(FieldView::Id(id)),
        distinct_on_site_path: false,
        order: OrderSpecView::IdDescending,
        window: None,
    }
}

/// The listings that can be shown beside a subject: every available,
/// undeleted listing but the subject itself.
pub open spec fn related_base(subject: i32) -> PredicateView {
    PredicateView::NotEquals(FieldView::Id(subject)).and(
        PredicateView::Equals(FieldView::Deleted(false)),
    ).and(PredicateView::Equals(FieldView::Sold(SoldStatus::Available)))
}

/// The filters that a search for related listings heeds: regency and
/// street, page and limit.
pub open spec fn related_filters(filters: FilterSpec) -> FilterSpec {
    FilterSpec {
        regency: filters.regency,
        street: filters.street,
        page: filters.page,
        limit: filters.limit,
        ..FilterSpec::unconstrained()
    }
}

/// The query that fetches the listings related to a subject, newest first.
pub open spec fn related_of(subject: i32, filters: FilterSpec) -> RetrievalQueryView {
    RetrievalQueryView {
        predicate: filtered(related_base(subject), None, related_filters(filters)),
        distinct_on_site_path: false,
        order: OrderSpecView::IdDescending,
        window: window_of(filters.page, filters.limit),
    }
}

/// What deleting a listing does to its row.
#[derive(Clone, Copy, Debug, PartialEq, Eq, Structural)]
pub enum DeleteAction {
    /// The row is removed from the store.
    Remove,
    /// The row stays, flagged as deleted.
    MarkDeleted,
}

/// What a deletion does when a caller of the given role asks for it: an
/// admin removes the row, an agent only flags it.
pub open spec fn delete_action_of(role: AgentRole) -> DeleteAction {
    match role {
        AgentRole::Admin => DeleteAction::Remove,
        AgentRole::Agent => DeleteAction::MarkDeleted,
    }
}

impl PropertyView {
    /// This listing flagged as deleted.
    pub open spec fn marked_deleted(self) -> PropertyView {
        PropertyView { is_deleted: true, ..self }
    }
}

impl Property {
    /// The query that fetches one listing by its id, whoever asks.
    pub fn find_one_by_id(id: i32) -> (query: RetrievalQuery)
        ensures
            query@ == by_id_of(id),
    {
        RetrievalQuery {
            predicate: Predicate::Equals(Field::Id(id)),
            distinct_on_site_path: false,
            order: OrderSpec::IdDescending,
            window: None,
        }
    }

    /// The query that fetches the listings of a caller's search.
    pub fn find_many(caller: &Option<Caller>, query: &FindPropertyQuery) -> (retrieval:
        RetrievalQuery)
        requires
            offset_fits(query.page, query.limit),
        ensures
            retrieval@ == retrieval_of(*caller, query@),
    {
        RetrievalQuery {
            predicate: retrieval_condition(caller, query),
            distinct_on_site_path: caller.is_none() && query.s.is_some(),
            order: order(query),
            window: page_window(query.page, query.limit),
        }
    }

    /// The query that counts the listings of a caller's search.
    pub fn count_find_many_rows(caller: &Option<Caller>, query: &FindPropertyQuery) -> (count:
        CountQuery)
        ensures
            count@ == count_predicate(*caller, query@),
    {
        CountQuery { predicate: count_condition(caller, query) }
    }

    /// The query that fetches the listings related to a subject.
    pub fn find_many_related(property_id: i32, query: &FindPropertyQuery) -> (retrieval:
        RetrievalQuery)
        requires
            offset_fits(query.page, query.limit),
        ensures
            retrieval@ == related_of(property_id, query@),
    {
        let base = Predicate::NotEquals(Field::Id(property_id)).and(
            Predicate::Equals(Field::Deleted(false)),
        ).and(Predicate::Equals(Field::Sold(SoldStatus::Available)));
        let with_regency = narrow(base, text_condition(TextColumn::Regency, &query.regency));
        let predicate = narrow(with_regency, text_condition(TextColumn::Street, &query.street));
        RetrievalQuery {
            predicate,
            distinct_on_site_path: false,
            order: OrderSpec::IdDescending,
            window: page_window(query.page, query.limit),
        }
    }

    /// What a deletion by a caller of the given role does: an admin removes
    /// the row, an agent only flags it.
    pub fn delete(role: AgentRole) -> (action: DeleteAction)
        ensures
            action == delete_action_of(role),
    {
        match role {
            AgentRole::Admin => DeleteAction::Remove,
            AgentRole::Agent => DeleteAction::MarkDeleted,
        }
    }

    /// The query for every site path that some listing has.
    pub fn find_distinct_site_paths() -> (query: DistinctQuery)
        ensures
            query@ == seq![Column::SitePath],
    {
        DistinctQuery { columns: vec![Column::SitePath] }
    }

    /// The query for every pair of offer and building type that some
    /// listing has.
    pub fn find_distinct_building_type_paths() -> (query: DistinctQuery)
        ensures
            query@ == seq![Column::PurchaseStatus, Column::BuildingType],
    {
        DistinctQuery { columns: vec![Column::PurchaseStatus, Column::BuildingType] }
    }

    /// The query for every combination of offer, building type and province
    /// that some listing has.
    pub fn find_distinct_province_paths() -> (query: DistinctQuery)
        ensures
            query@ == seq![Column::PurchaseStatus, Column::BuildingType, Column::Province],
    {
        DistinctQuery {
            columns: vec![Column::PurchaseStatus, Column::BuildingType, Column::Province],
        }
    }

    /// The query for every combination of offer, building type, province
    /// and regency that some listing has.
    pub fn find_distinct_regency_paths() -> (query: DistinctQuery)
        ensures
            query@ == seq![
                Column::PurchaseStatus,
                Column::BuildingType,
                Column::Province,
                Column::Regency,
            ],
    {
        DistinctQuery {
            columns: vec![
                Column::PurchaseStatus,
                Column::BuildingType,
                Column::Province,
                Column::Regency,
            ],
        }
    }
}

/// The query composer: both queries of a caller's search, the retrieval
/// and the count that goes with it. They share the visibility of the
/// caller and every filter, and differ only in how a search term that
/// spells no integer is matched.
pub fn compose(caller: &Option<Caller>, query: &FindPropertyQuery) -> (queries: (
    RetrievalQuery,
    CountQuery,
))
    requires
        offset_fits(query.page, query.limit),
    ensures
        queries.0@ == retrieval_of(*caller, query@),
        queries.1@ == count_predicate(*caller, query@),
{
    (Property::find_many(caller, query), Property::count_find_many_rows(caller, query))
}

} // verus!
