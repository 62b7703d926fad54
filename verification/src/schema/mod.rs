//! The requests and responses of the five operations.

pub mod create;
pub mod find;
pub mod list;
pub mod remove;
pub mod set;
