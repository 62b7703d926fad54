//! Issues, looks up, lists, relabels and revokes opaque bearer tokens that
//! belong to a user.
//!
//! The tokens live in a document store that this crate does not talk to
//! itself. For each operation the crate decides what is asked of the store
//! and what the store's answer means for the caller; the caller carries the
//! question to the store and brings the answer back. `collection` says how
//! the store is required to behave, `store` is a collection in memory that
//! behaves so, and `laws` holds what follows for the five operations.

mod clock;
pub mod collection;
pub mod config;
pub mod driver;
pub mod error;
pub mod ident;
pub mod laws;
pub mod listing;
pub mod router;
pub mod schema;
pub mod store;
pub mod token;

pub use config::{MasterConfig, MongoConfig};
pub use error::{InsertOutcome, StoreFailure, TokenError};
pub use listing::Listing;
pub use router::{InternalRouter, Router};
pub use store::TokenStore;
pub use token::{CreateStep, ListStep, PageQuery, Token};
