//! Connection graph between users: pending requests, symmetric edges, and the
//! workflow that moves a pair of users between those states.
pub mod config;
pub mod engine;
pub mod error;
pub mod graph;
pub mod laws;
pub mod listing;
pub mod pagination;
pub mod profile;
pub mod store;
pub mod task;
pub mod text;
pub mod workflow;
