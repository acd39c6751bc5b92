//! The core of a URL shortener, written without I/O of its own: the rules
//! for short codes, the redirect cache, redirect resolution, paging and the
//! life cycle of a redirection, each with a proved contract.

pub mod api;
pub mod cache;
pub mod code;
pub mod conf;
pub mod errors;
pub mod model;
pub mod mutation;
pub mod query;
pub mod resolver;
pub mod time;
