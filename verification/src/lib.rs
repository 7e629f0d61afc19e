//! Resolution of a client IP address to geographic metadata, returned as
//! JSON or JSONP.
//!
//! The pipeline: pick the address to resolve from the request's candidates,
//! pick the display language, map the sparse record that the geolocation
//! database returned into a flat, fully defaulted response record (with a
//! localized-name fallback chain for the country), serialize it, and wrap it
//! in a JSONP callback when one was asked for.

pub mod handler;
pub mod ip;
pub mod json;
pub mod localize;
pub mod record;
pub mod resolve;
pub mod text;
