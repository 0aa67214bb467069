//! An in-memory todo store with CRUD operations, pagination and
//! request-handler logic, verified with Verus.

pub mod clock;
pub mod handler;
pub mod ident;
pub mod model;
pub mod store;

pub use ident::u64_to_dec_string;
