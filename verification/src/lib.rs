//! Order-management library: the order data model, the repository
//! abstraction with an in-memory backend, the row and status codecs used by
//! the SQL backend, and the request-handling rules that map repository
//! results to HTTP status codes.

pub mod db;
pub mod errors;
pub mod handlers;
pub mod in_memory_repo;
pub mod models;
pub mod repository;
