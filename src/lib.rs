//! An authenticated blogging service: password credentials, signed
//! session tokens, an in-memory store of users and posts, the ownership
//! policy for posts, and the request contract of each endpoint.
pub mod value_object;
pub mod entity;
pub mod credential;
pub mod decimal;
pub mod header;
pub mod token;
pub mod store;
pub mod models;
pub mod responses;
pub mod validation;
pub mod policy;
pub mod handlers;
pub mod server;
