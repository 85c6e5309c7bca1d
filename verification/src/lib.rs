//! An in-memory store of todo items with create, read, update and delete
//! operations, each specified over a sequence model of the collection.

pub mod error;
pub mod handlers;
pub mod ident;
pub mod laws;
pub mod model;
pub mod response;
pub mod shared;
pub mod store;
pub mod todo;
