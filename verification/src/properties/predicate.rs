//! Predicates over listings: the conditions that a query puts on the rows
//! it returns, and what it means for a row to meet them.

use crate::properties::enumerates::{PurchaseStatus, SoldStatus};
use crate::properties::model::{Property, PropertyView};
use crate::schema::TextColumn;
use vstd::prelude::*;

verus! {

/// A column of a listing together with a value to hold against it.
#[derive(Clone, Debug, PartialEq, Eq)]
pub enum Field {
    Id(i32),
    Owner(u128),
    Deleted(bool),
    Sold(SoldStatus),
    Purchase(PurchaseStatus),
    Developer(i32),
    Text(TextColumn, String),
}

/// The mathematical content of a [`Field`].
pub enum FieldView {
    Id(i32),
    Owner(u128),
    Deleted(bool),
    Sold(SoldStatus),
    Purchase(PurchaseStatus),
    Developer(i32),
    Text(TextColumn, Seq<char>),
}

impl View for Field {
    type V = FieldView;

    open spec fn view(&self) -> FieldView {
        match self {
            Field::Id(id) => FieldView::Id(*id),
            Field::Owner(owner) => FieldView::Owner(*owner),
            Field::Deleted(flag) => FieldView::Deleted(*flag),
            Field::Sold(status) => FieldView::Sold(*status),
            Field::Purchase(status) => FieldView::Purchase(*status),
            Field::Developer(id) => FieldView::Developer(*id),
            Field::Text(column, text) => FieldView::Text(*column, text@),
        }
    }
}

impl FieldView {
    /// Whether the row holds exactly this value in this column. A listing
    /// without a developer equals no developer id.
    pub open spec fn equal_in(self, row: PropertyView) -> bool {
        match self {
            FieldView::Id(id) => row.id == id,
            FieldView::Owner(owner) => row.user_id == owner,
            FieldView::Deleted(flag) => row.is_deleted == flag,
            FieldView::Sold(status) => row.sold_status == status,
            FieldView::Purchase(status) => row.purchase_status == status,
            FieldView::Developer(id) => row.developer_id == Some(id),
            FieldView::Text(column, text) => row.text(column) == text,
        }
    }

    /// Whether the row holds a value in this column, and another than this
    /// one. A listing without a developer differs from no developer id.
    pub open spec fn differs_in(self, row: PropertyView) -> bool {
        match self {
            FieldView::Developer(id) => row.developer_id is Some && row.developer_id != Some(id),
            _ => !self.equal_in(row),
        }
    }
}

impl Field {
    /// Whether the row holds exactly this value in this column.
    pub fn equal_in(&self, row: &Property) -> (equal: bool)
        ensures
            equal == self@.equal_in(row@),
    {
        match self {
            Field::Id(id) => row.id == *id,
            Field::Owner(owner) => row.user_id == *owner,
            Field::Deleted(flag) => row.is_deleted == *flag,
            Field::Sold(status) => row.sold_status == *status,
            Field::Purchase(status) => row.purchase_status == *status,
            Field::Developer(id) => match row.developer_id {
                Some(developer) => developer == *id,
                None => false,
            },
            Field::Text(column, text) => *row.text(*column) == *text,
        }
    }

    /// Whether the row holds another value than this one in this column.
    pub fn differs_in(&self, row: &Property) -> (differs: bool)
        ensures
            differs == self@.differs_in(row@),
    {
        match self {
            Field::Developer(id) => match row.developer_id {
                Some(developer) => developer != *id,
                None => false,
            },
            _ => !self.equal_in(row),
        }
    }
}

/// A condition on listings, built from tests on single columns.
#[derive(Debug, PartialEq, Eq)]
pub enum Predicate {
    /// Every listing.
    True,
    /// The column holds the value.
    Equals(Field),
    /// The column holds another value.
    NotEquals(Field),
    /// The column matches the pattern, letter case aside, as the store's
    /// `ILIKE` decides.
    ILike(TextColumn, String),
    /// The similarity of the column to the term, as the store's trigram
    /// similarity measures it, exceeds the given number of hundredths.
    Similar(TextColumn, String, u8),
    /// The configuration bag holds the name with the boolean value.
    Contains(String, bool),
    And(Box<Predicate>, Box<Predicate>),
    Or(Box<Predicate>, Box<Predicate>),
}

/// The similarity, in hundredths, that the site path of a listing must
/// exceed to answer a search term.
pub const MIN_SIMILARITY_PERCENT: u8 = 10;

/// The mathematical content of a [`Predicate`].
pub enum PredicateView {
    True,
    Equals(FieldView),
    NotEquals(FieldView),
    ILike(TextColumn, Seq<char>),
    Similar(TextColumn, Seq<char>, u8),
    Contains(Seq<char>, bool),
    And(Box<PredicateView>, Box<PredicateView>),
    Or(Box<PredicateView>, Box<PredicateView>),
}

impl View for Predicate {
    type V = PredicateView;

    open spec fn view(&self) -> PredicateView
        decreases self,
    {
        match self {
            Predicate::True => PredicateView::True,
            Predicate::Equals(field) => PredicateView::Equals(field@),
            Predicate::NotEquals(field) => PredicateView::NotEquals(field@),
            Predicate::ILike(column, pattern) => PredicateView::ILike(*column, pattern@),
            Predicate::Similar(column, term, percent) => PredicateView::Similar(
                *column,
                term@,
                *percent,
            ),
            Predicate::Contains(name, value) => PredicateView::Contains(name@, *value),
            Predicate::And(left, right) => PredicateView::And(
                Box::new((**left).view()),
                Box::new((**right).view()),
            ),
            Predicate::Or(left, right) => PredicateView::Or(
                Box::new((**left).view()),
                Box::new((**right).view()),
            ),
        }
    }
}

/// How the store matches and ranks texts. The rules hold whatever the
/// store decides here, so every relation is left open.
pub struct TextMatching {
    /// Whether a text matches a pattern, letter case aside.
    pub ilike: spec_fn(Seq<char>, Seq<char>) -> bool,
    /// Whether the similarity of a text to a search term exceeds a number
    /// of hundredths.
    pub similar: spec_fn(Seq<char>, Seq<char>, u8) -> bool,
    /// Whether the first text sorts before the second, or with it, in the
    /// store's order of texts.
    pub sorts_before: spec_fn(Seq<char>, Seq<char>) -> bool,
    /// Whether the first text is at least as similar to a search term, the
    /// third text, as the second is.
    pub as_similar: spec_fn(Seq<char>, Seq<char>, Seq<char>) -> bool,
}

impl PredicateView {
    /// The conjunction of two predicates.
    pub open spec fn and(self, other: PredicateView) -> PredicateView {
        PredicateView::And(Box::new(self), Box::new(other))
    }

    /// The disjunction of two predicates.
    pub open spec fn or(self, other: PredicateView) -> PredicateView {
        PredicateView::Or(Box::new(self), Box::new(other))
    }

    /// Whether a row meets the predicate, given how the store matches texts.
    pub open spec fn holds(self, row: PropertyView, matching: TextMatching) -> bool
        decreases self,
    {
        match self {
            PredicateView::True => true,
            PredicateView::Equals(field) => field.equal_in(row),
            PredicateView::NotEquals(field) => field.differs_in(row),
            PredicateView::ILike(column, pattern) => (matching.ilike)(row.text(column), pattern),
            PredicateView::Similar(column, term, percent) => (matching.similar)(
                row.text(column),
                term,
                percent,
            ),
            PredicateView::Contains(name, value) => row.flags.contains((name, value)),
            PredicateView::And(left, right) => left.holds(row, matching) && right.holds(
                row,
                matching,
            ),
            PredicateView::Or(left, right) => left.holds(row, matching) || right.holds(
                row,
                matching,
            ),
        }
    }

    /// What can be said of a row without asking the store to match texts:
    /// `Some(verdict)` when the tests on plain columns settle the predicate,
    /// `None` when it hangs on a text match.
    pub open spec fn settled(self, row: PropertyView) -> Option<bool>
        decreases self,
    {
        match self {
            PredicateView::True => Some(true),
            PredicateView::Equals(field) => Some(field.equal_in(row)),
            PredicateView::NotEquals(field) => Some(field.differs_in(row)),
            PredicateView::ILike(_, _) => None,
            PredicateView::Similar(_, _, _) => None,
            PredicateView::Contains(name, value) => Some(row.flags.contains((name, value))),
            PredicateView::And(left, right) => {
                let l = left.settled(row);
                let r = right.settled(row);
                if l == Some(false) || r == Some(false) {
                    Some(false)
                } else if l == Some(true) && r == Some(true) {
                    Some(true)
                } else {
                    None
                }
            },
            PredicateView::Or(left, right) => {
                let l = left.settled(row);
                let r = right.settled(row);
                if l == Some(true) || r == Some(true) {
                    Some(true)
                } else if l == Some(false) && r == Some(false) {
                    Some(false)
                } else {
                    None
                }
            },
        }
    }
}

impl Predicate {
    /// The conjunction of two predicates.
    pub fn and(self, other: Predicate) -> (both: Predicate)
        ensures
            both@ == self@.and(other@),
    {
        Predicate::And(Box::new(self), Box::new(other))
    }

    /// The disjunction of two predicates.
    pub fn or(self, other: Predicate) -> (either: Predicate)
        ensures
            either@ == self@.or(other@),
    {
        Predicate::Or(Box::new(self), Box::new(other))
    }

    /// Decides the predicate on a row as far as the plain columns allow.
    pub fn settle(&self, row: &Property) -> (verdict: Option<bool>)
        ensures
            verdict == self@.settled(row@),
        decreases self,
    {
        match self {
            Predicate::True => Some(true),
            Predicate::Equals(field) => Some(field.equal_in(row)),
            Predicate::NotEquals(field) => Some(field.differs_in(row)),
            Predicate::ILike(_, _) => None,
            Predicate::Similar(_, _, _) => None,
            Predicate::Contains(name, value) => Some(row.has_flag(name, *value)),
            Predicate::And(left, right) => {
                let l = left.settle(row);
                let r = right.settle(row);
                match (l, r) {
                    (Some(false), _) => Some(false),
                    (_, Some(false)) => Some(false),
                    (Some(true), Some(true)) => Some(true),
                    _ => None,
                }
            },
            Predicate::Or(left, right) => {
                let l = left.settle(row);
                let r = right.settle(row);
                match (l, r) {
                    (Some(true), _) => Some(true),
                    (_, Some(true)) => Some(true),
                    (Some(false), Some(false)) => Some(false),
                    _ => None,
                }
            },
        }
    }
}

/// A settled verdict is the verdict under every way of matching texts.
pub proof fn lemma_settled_holds(predicate: PredicateView, row: PropertyView, matching: TextMatching)
    ensures
        predicate.settled(row) matches Some(verdict) ==> predicate.holds(row, matching) == verdict,
    decreases predicate,
{
    match predicate {
        PredicateView::And(left, right) => {
            lemma_settled_holds(*left, row, matching);
            lemma_settled_holds(*right, row, matching);
        },
        PredicateView::Or(left, right) => {
            lemma_settled_holds(*left, row, matching);
            lemma_settled_holds(*right, row, matching);
        },
        _ => {},
    }
}

/// The store under which every text matches every pattern and is similar
/// to every term.
pub open spec fn matching_everything() -> TextMatching {
    TextMatching {
        ilike: |text: Seq<char>, pattern: Seq<char>| true,
        similar: |text: Seq<char>, term: Seq<char>, percent: u8| true,
        sorts_before: |first: Seq<char>, second: Seq<char>| true,
        as_similar: |first: Seq<char>, second: Seq<char>, term: Seq<char>| true,
    }
}

/// The store under which no text matches a pattern or is similar to a
/// term.
pub open spec fn matching_nothing() -> TextMatching {
    TextMatching {
        ilike: |text: Seq<char>, pattern: Seq<char>| false,
        similar: |text: Seq<char>, term: Seq<char>, percent: u8| false,
        sorts_before: |first: Seq<char>, second: Seq<char>| true,
        as_similar: |first: Seq<char>, second: Seq<char>, term: Seq<char>| true,
    }
}

/// A predicate is left unsettled on a row only where the verdict does hang
/// on how texts are matched: it is met where every text matches and missed
/// where none does.
pub proof fn lemma_unsettled_hangs_on_matching(predicate: PredicateView, row: PropertyView)
    ensures
        predicate.settled(row) is None ==> predicate.holds(row, matching_everything())
            && !predicate.holds(row, matching_nothing()),
    decreases predicate,
{
    match predicate {
        PredicateView::And(left, right) => {
            lemma_unsettled_hangs_on_matching(*left, row);
            lemma_unsettled_hangs_on_matching(*right, row);
            lemma_settled_holds(*left, row, matching_everything());
            lemma_settled_holds(*right, row, matching_everything());
            lemma_settled_holds(*left, row, matching_nothing());
            lemma_settled_holds(*right, row, matching_nothing());
        },
        PredicateView::Or(left, right) => {
            lemma_unsettled_hangs_on_matching(*left, row);
            lemma_unsettled_hangs_on_matching(*right, row);
            lemma_settled_holds(*left, row, matching_everything());
            lemma_settled_holds(*right, row, matching_everything());
            lemma_settled_holds(*left, row, matching_nothing());
            lemma_settled_holds(*right, row, matching_nothing());
        },
        _ => {},
    }
}

} // verus!
