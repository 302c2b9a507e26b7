//! Auth storage: the document model, its validation, active-auth mutations
//! and the decisions of the storage backends.

pub mod account_store;
pub mod auto;
pub mod backend;
pub mod error;
pub mod keys;
pub mod laws;
pub mod model;
pub mod mutation;
