//! Listings: their enumerations, filters, queries and naming.

pub mod create_update;
pub mod enumerates;
pub mod filter;
pub mod laws;
pub mod model;
pub mod pagination;
pub mod predicate;
pub mod query;
pub mod search;
pub mod service;
pub mod site_paths;
pub mod store;
