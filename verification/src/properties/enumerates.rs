//! The closed enumerations that a listing carries.

use vstd::prelude::*;

verus! {

/// Whether a listing is offered for sale, for rent, or for either.
#[derive(Clone, Copy, Debug, PartialEq, Eq, Structural)]
pub enum PurchaseStatus {
    ForSale,
    ForRent,
    ForSaleOrRent,
}

/// Whether a listing can still be had.
#[derive(Clone, Copy, Debug, PartialEq, Eq, Structural)]
pub enum SoldStatus {
    Available,
    Sold,
}

impl PurchaseStatus {
    /// The path segment that stands for the offer.
    pub open spec fn slug(self) -> Seq<char> {
        match self {
            PurchaseStatus::ForSale => "for-sale"@,
            PurchaseStatus::ForRent => "for-rent"@,
            PurchaseStatus::ForSaleOrRent => "for-sale-or-rent"@,
        }
    }

    /// The path segment that stands for the offer.
    pub fn to_slug(&self) -> (segment: String)
        ensures
            segment@ == self.slug(),
    {
        match self {
            PurchaseStatus::ForSale => String::from_str("for-sale"),
            PurchaseStatus::ForRent => String::from_str("for-rent"),
            PurchaseStatus::ForSaleOrRent => String::from_str("for-sale-or-rent"),
        }
    }
}

impl PurchaseStatus {
    /// The name under which an offer is sent and received.
    pub open spec fn name_of(self) -> Seq<char> {
        match self {
            PurchaseStatus::ForSale => "ForSale"@,
            PurchaseStatus::ForRent => "ForRent"@,
            PurchaseStatus::ForSaleOrRent => "ForSaleOrRent"@,
        }
    }

    /// What a name stands for, where it is the name of an offer.
    pub open spec fn named(name: Seq<char>) -> Option<PurchaseStatus> {
        if name == "ForSale"@ {
            Some(PurchaseStatus::ForSale)
        } else if name == "ForRent"@ {
            Some(PurchaseStatus::ForRent)
        } else if name == "ForSaleOrRent"@ {
            Some(PurchaseStatus::ForSaleOrRent)
        } else {
            None
        }
    }

    /// The name under which this value is sent.
    pub fn name(&self) -> (name: String)
        ensures
            name@ == self.name_of(),
    {
        match self {
            PurchaseStatus::ForSale => String::from_str("ForSale"),
            PurchaseStatus::ForRent => String::from_str("ForRent"),
            PurchaseStatus::ForSaleOrRent => String::from_str("ForSaleOrRent"),
        }
    }

    /// Reads a value from its name; a text that is no name gives none.
    pub fn from_name(name: &str) -> (value: Option<PurchaseStatus>)
        ensures
            value == PurchaseStatus::named(name@),
    {
        let wanted = String::from_str(name);
        if wanted == String::from_str("ForSale") {
            Some(PurchaseStatus::ForSale)
        } else if wanted == String::from_str("ForRent") {
            Some(PurchaseStatus::ForRent)
        } else if wanted == String::from_str("ForSaleOrRent") {
            Some(PurchaseStatus::ForSaleOrRent)
        } else {
            None
        }
    }

    /// Every value is read back from its own name.
    pub proof fn name_round_trip(self)
        ensures
            PurchaseStatus::named(self.name_of()) == Some(self),
    {
        reveal_strlit("ForSale");
        reveal_strlit("ForRent");
        reveal_strlit("ForSaleOrRent");
        assert("ForSale"@[3] != "ForRent"@[3]);
        assert("ForSale"@.len() != "ForSaleOrRent"@.len());
        assert("ForRent"@.len() != "ForSaleOrRent"@.len());
    }
}

impl SoldStatus {
    /// The name under which an availability is sent and received.
    pub open spec fn name_of(self) -> Seq<char> {
        match self {
            SoldStatus::Available => "Available"@,
            SoldStatus::Sold => "Sold"@,
        }
    }

    /// What a name stands for, where it is the name of an availability.
    pub open spec fn named(name: Seq<char>) -> Option<SoldStatus> {
        if name == "Available"@ {
            Some(SoldStatus::Available)
        } else if name == "Sold"@ {
            Some(SoldStatus::Sold)
        } else {
            None
        }
    }

    /// The name under which this value is sent.
    pub fn name(&self) -> (name: String)
        ensures
            name@ == self.name_of(),
    {
        match self {
            SoldStatus::Available => String::from_str("Available"),
            SoldStatus::Sold => String::from_str("Sold"),
        }
    }

    /// Reads a value from its name; a text that is no name gives none.
    pub fn from_name(name: &str) -> (value: Option<SoldStatus>)
        ensures
            value == SoldStatus::named(name@),
    {
        let wanted = String::from_str(name);
        if wanted == String::from_str("Available") {
            Some(SoldStatus::Available)
        } else if wanted == String::from_str("Sold") {
            Some(SoldStatus::Sold)
        } else {
            None
        }
    }

    /// Every value is read back from its own name.
    pub proof fn name_round_trip(self)
        ensures
            SoldStatus::named(self.name_of()) == Some(self),
    {
        reveal_strlit("Available");
        reveal_strlit("Sold");
        assert("Available"@.len() != "Sold"@.len());
    }
}

} // verus!
