//! The core of a small HTTP service for a "user" resource: the error
//! taxonomy, the repository contracts, the create-user command and the
//! get-user query, the route table, the mapping from results to HTTP
//! responses, and a store of users held in memory.

pub mod error;
pub mod user;
pub mod repository;
pub mod command;
pub mod query;
pub mod di;
pub mod httpapi;
pub mod memory;
pub mod shared;
