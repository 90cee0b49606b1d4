//! The logic of a tool server for an expense-sharing service: listing
//! expenses from the service's paginated endpoint with filters that the
//! service does not apply itself, projecting records onto the fields a
//! caller asks for, building the service's query parameters and form
//! bodies, and deciding who may call the server.
pub mod auth;
pub mod decimal;
pub mod engine;
pub mod filter;
pub mod in_memory;
pub mod projection;
pub mod requests;
pub mod text;
pub mod tools;
pub mod types;
