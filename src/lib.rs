//! Issuing, caching, refreshing and verifying the bearer tokens of a document
//! database and its identity service.

pub mod credentials;
pub mod errors;
pub mod compact;
pub mod jwt;
pub mod sessions;
