//! The records the service stores, as plain values.
pub mod ids;
pub mod models;
