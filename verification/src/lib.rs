//! Cross-provider playlist synchronization engine.
//!
//! The library normalizes playlist and track listings from three music
//! providers (Apple Music, Spotify, YouTube Music) into one canonical
//! model, resolves a source track into the matching destination catalog
//! identifier, and drives the partially-failable transfer of a playlist
//! from one provider to another. Network calls are made by the caller;
//! the decisions, the parsing of response bodies, and the bookkeeping of
//! a transfer live here, each behind a verified contract.

pub mod apple;
pub mod fetch;
pub mod json;
pub mod model;
pub mod pages;
pub mod resolve;
pub mod spotify;
pub mod text;
pub mod transfer;
pub mod youtube;
