//! The enumerated types that the store declares. Each marker stands for one
//! of them and knows the name under which the store declared it.

use vstd::prelude::*;

verus! {

/// The store's type for the role of an agent.
#[derive(Clone, Copy, Debug)]
pub struct AgentRole;

impl AgentRole {
    /// The name of this type in the store.
    pub fn store_name() -> (name: String)
        ensures
            name@ == "agent_role"@,
    {
        String::from_str("agent_role")
    }
}

/// The store's type for the condition of a building.
#[derive(Clone, Copy, Debug)]
pub struct BuildingCondition;

impl BuildingCondition {
    /// The name of this type in the store.
    pub fn store_name() -> (name: String)
        ensures
            name@ == "building_condition"@,
    {
        String::from_str("building_condition")
    }
}

/// The store's type for the currency of a price.
#[derive(Clone, Copy, Debug)]
pub struct CurrencyUnit;

impl CurrencyUnit {
    /// The name of this type in the store.
    pub fn store_name() -> (name: String)
        ensures
            name@ == "currency_unit"@,
    {
        String::from_str("currency_unit")
    }
}

/// The store's type for how far a building is furnished.
#[derive(Clone, Copy, Debug)]
pub struct FurnitureCapacity;

impl FurnitureCapacity {
    /// The name of this type in the store.
    pub fn store_name() -> (name: String)
        ensures
            name@ == "furniture_capacity"@,
    {
        String::from_str("furniture_capacity")
    }
}

/// The store's type for the sale-or-rent offer of a listing.
#[derive(Clone, Copy, Debug)]
pub struct PurchaseStatus;

impl PurchaseStatus {
    /// The name of this type in the store.
    pub fn store_name() -> (name: String)
        ensures
            name@ == "purchase_status"@,
    {
        String::from_str("purchase_status")
    }
}

/// The store's type for the period that a rent is quoted for.
#[derive(Clone, Copy, Debug)]
pub struct RentTimeUnit;

impl RentTimeUnit {
    /// The name of this type in the store.
    pub fn store_name() -> (name: String)
        ensures
            name@ == "rent_time_unit"@,
    {
        String::from_str("rent_time_unit")
    }
}

/// The store's type for the channel through which a listing was sold.
#[derive(Clone, Copy, Debug)]
pub struct SoldChannel;

impl SoldChannel {
    /// The name of this type in the store.
    pub fn store_name() -> (name: String)
        ensures
            name@ == "sold_channel"@,
    {
        String::from_str("sold_channel")
    }
}

/// The store's type for the availability of a listing.
#[derive(Clone, Copy, Debug)]
pub struct SoldStatus;

impl SoldStatus {
    /// The name of this type in the store.
    pub fn store_name() -> (name: String)
        ensures
            name@ == "sold_status"@,
    {
        String::from_str("sold_status")
    }
}

} // verus!
