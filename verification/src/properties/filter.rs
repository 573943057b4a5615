//! The filters that a caller may put on a listing search.

use crate::properties::enumerates::{PurchaseStatus, SoldStatus};
use crate::text::optional_text;
use vstd::prelude::*;

verus! {

/// An explicit ordering asked for by the caller.
#[derive(Clone, Copy, Debug, PartialEq, Eq, Structural)]
pub enum FindPropertySort {
    LowestPrice,
    HighestPrice,
}

/// The filters of one search. Every field is optional, and an absent field
/// puts no condition on the listings.
#[derive(Clone, Debug, PartialEq, Eq)]
pub struct FindPropertyQuery {
    /// Free-text search term.
    pub s: Option<String>,
    pub province: Option<String>,
    pub regency: Option<String>,
    pub street: Option<String>,
    pub page: Option<i64>,
    pub limit: Option<i64>,
    pub is_popular: Option<bool>,
    pub sold_status: Option<SoldStatus>,
    pub purchase_status: Option<PurchaseStatus>,
    pub building_type: Option<String>,
    pub sort: Option<FindPropertySort>,
    pub developer_id: Option<i32>,
}

/// The mathematical content of a [`FindPropertyQuery`].
pub struct FilterSpec {
    pub s: Option<Seq<char>>,
    pub province: Option<Seq<char>>,
    pub regency: Option<Seq<char>>,
    pub street: Option<Seq<char>>,
    pub page: Option<i64>,
    pub limit: Option<i64>,
    pub is_popular: Option<bool>,
    pub sold_status: Option<SoldStatus>,
    pub purchase_status: Option<PurchaseStatus>,
    pub building_type: Option<Seq<char>>,
    pub sort: Option<FindPropertySort>,
    pub developer_id: Option<i32>,
}

impl View for FindPropertyQuery {
    type V = FilterSpec;

    open spec fn view(&self) -> FilterSpec {
        FilterSpec {
            s: optional_text(self.s),
            province: optional_text(self.province),
            regency: optional_text(self.regency),
            street: optional_text(self.street),
            page: self.page,
            limit: self.limit,
            is_popular: self.is_popular,
            sold_status: self.sold_status,
            purchase_status: self.purchase_status,
            building_type: optional_text(self.building_type),
            sort: self.sort,
            developer_id: self.developer_id,
        }
    }
}

impl FilterSpec {
    /// The filters that constrain nothing.
    pub open spec fn unconstrained() -> FilterSpec {
        FilterSpec {
            s: None,
            province: None,
            regency: None,
            street: None,
            page: None,
            limit: None,
            is_popular: None,
            sold_status: None,
            purchase_status: None,
            building_type: None,
            sort: None,
            developer_id: None,
        }
    }
}

impl Default for FindPropertyQuery {
    /// The filters that constrain nothing.
    fn default() -> (query: Self)
        ensures
            query@ == FilterSpec::unconstrained(),
    {
        FindPropertyQuery {
            s: None,
            province: None,
            regency: None,
            street: None,
            page: None,
            limit: None,
            is_popular: None,
            sold_status: None,
            purchase_status: None,
            building_type: None,
            sort: None,
            developer_id: None,
        }
    }
}

impl FindPropertySort {
    /// The name under which a sort is sent and received.
    pub open spec fn name_of(self) -> Seq<char> {
        match self {
            FindPropertySort::LowestPrice => "LowestPrice"@,
            FindPropertySort::HighestPrice => "HighestPrice"@,
        }
    }

    /// What a name stands for, where it is the name of a sort.
    pub open spec fn named(name: Seq<char>) -> Option<FindPropertySort> {
        if name == "LowestPrice"@ {
            Some(FindPropertySort::LowestPrice)
        } else if name == "HighestPrice"@ {
            Some(FindPropertySort::HighestPrice)
        } else {
            None
        }
    }

    /// The name under which this value is sent.
    pub fn name(&self) -> (name: String)
        ensures
            name@ == self.name_of(),
    {
        match self {
            FindPropertySort::LowestPrice => String::from_str("LowestPrice"),
            FindPropertySort::HighestPrice => String::from_str("HighestPrice"),
        }
    }

    /// Reads a value from its name; a text that is no name gives none.
    pub fn from_name(name: &str) -> (value: Option<FindPropertySort>)
        ensures
            value == FindPropertySort::named(name@),
    {
        let wanted = String::from_str(name);
        if wanted == String::from_str("LowestPrice") {
            Some(FindPropertySort::LowestPrice)
        } else if wanted == String::from_str("HighestPrice") {
            Some(FindPropertySort::HighestPrice)
        } else {
            None
        }
    }

    /// Every value is read back from its own name.
    pub proof fn name_round_trip(self)
        ensures
            FindPropertySort::named(self.name_of()) == Some(self),
    {
        reveal_strlit("LowestPrice");
        reveal_strlit("HighestPrice");
        assert("LowestPrice"@.len() != "HighestPrice"@.len());
    }
}

} // verus!
