//! Resolution of shared identifiers into typed resources, ancestor-subject search
//! over the taxonomy, and projection of stored events into typed events.
//!
//! The functions here are pure: the rows that a store holds for one identifier are
//! handed in as plain values, and the result is assembled from them.

pub mod alias;
pub mod comment;
pub mod datetime;
pub mod entity;
pub mod error;
pub mod event;
pub mod instance;
pub mod notification;
pub mod ordering;
pub mod projection;
pub mod taxonomy_term;
pub mod text;
pub mod uuid;
