//! The shape of the listing store: its columns and enumerated types.

pub mod sql_types;

use vstd::prelude::*;

verus! {

/// A text column of the listings table that a search can test.
#[derive(Clone, Copy, Debug, PartialEq, Eq, Structural)]
pub enum TextColumn {
    SitePath,
    Title,
    Province,
    Regency,
    Street,
    BuildingType,
}

/// A column of the listings table that a distinct query projects.
#[derive(Clone, Copy, Debug, PartialEq, Eq, Structural)]
pub enum Column {
    SitePath,
    PurchaseStatus,
    BuildingType,
    Province,
    Regency,
}

} // verus!
