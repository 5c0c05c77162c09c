//! Signature-based session authentication and an injection-safe query
//! compiler for a personal story-ranking service.

pub mod auth;
pub mod clock;
pub mod codec;
pub mod error;
pub mod filter;
pub mod paging;
pub mod placeholders;
pub mod profile;
pub mod proxy;
pub mod query;
pub mod query_laws;
pub mod ranking;
pub mod session;
pub mod signature;
pub mod text;
pub mod token;
pub mod user;
