//! Client library for a remote game-data service.
//!
//! The heart of the crate is the shared response cache and the request
//! dispatch layer: every outbound request is either served from the cache
//! or fetched over the network, classified, stored and decoded.  The cache
//! ([`cache::SharedCache`]) is an internally synchronized handle that any
//! number of client facades can share; the dispatch functions
//! ([`dispatch`]) decide when a network fetch is needed and how a response
//! is classified and recorded; [`error::ClientError`] is the closed error
//! taxonomy.  [`api::LeagueClient`] and [`ddragon::DDragonClient`] build
//! the request identities (fully resolved URLs) for each endpoint.
//!
//! The library performs no I/O itself: a caller performs the HTTP exchange
//! and hands status code and body back to the dispatch layer.

pub mod api;
pub mod cache;
pub mod constants;
pub mod ddragon;
pub mod dispatch;
pub mod error;
pub mod text;
