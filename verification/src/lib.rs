//! Search, visibility and naming rules of a property-listing marketplace.
//!
//! The crate composes the queries that a listing store is asked to run and
//! states, over a model of the store's rows, which rows each query admits
//! and returns. It never talks to a store itself: callers run the composed
//! queries and hand the outcomes back.
//!
//! - [`properties`] holds the listings: filters, predicates, the search
//!   engine, pagination, the listing service, the model of the store and
//!   what is proved of it, and the normalisation of what is written.
//! - [`agents`] holds roles, callers and what a role may change.
//! - [`developers`] holds the naming of developers.
//! - [`response`] holds the failures that a request can end in.
//! - [`schema`] names the columns and enumerated types of the store.
//! - [`text`] holds the text normalisation that the rules share.

pub mod agents;
pub mod developers;
pub mod properties;
pub mod response;
pub mod schema;
pub mod text;
