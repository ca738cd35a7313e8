//! The upload API.
pub mod v1;
