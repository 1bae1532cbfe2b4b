//! An in-memory repository of book records: a store with verified create,
//! find, list, update and delete operations, a handle that shares one store
//! behind a read/write lock, and the rules by which a service validates its
//! inputs and answers its callers.

pub mod book;
pub mod error;
pub mod laws;
pub mod rejection;
pub mod repository;
pub mod status;
pub mod store;
pub mod validation;
