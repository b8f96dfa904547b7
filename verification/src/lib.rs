//! A read-only client for one account's public activity on a social content
//! platform.
//!
//! The platform answers three fixed endpoints — overview, submitted posts,
//! submitted comments — with loosely typed JSON listings in which posts and
//! comments share one container and are told apart by a discriminator field.
//! This crate holds the response data model and its decoders, together with a
//! query client that builds the request for each endpoint and interprets the
//! response; issuing the HTTP request itself is left to the caller.

pub mod json;
pub mod responses;
pub mod user;
