//! A catalog of learning content: standalone pills, and courses that refer to
//! pills by identifier. The crate holds the aggregates, the repository
//! contracts, the command and query handlers that work against them, an
//! in-memory implementation of each repository and the record shapes of the
//! document-backed one.

pub mod identifier;
pub mod ordered_set;
pub mod store;
pub mod pills;
pub mod courses;
pub mod database;
pub mod health;
pub mod text;
