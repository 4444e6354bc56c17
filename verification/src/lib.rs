//! A typed, verified client for a remote management API.
//!
//! The crate centers on a request-builder framework: a family of chainable
//! builder types encodes the valid navigation paths of the API (organization
//! to members to a single member, and so on), while a single request state is
//! threaded through every chain.  Path and query composition, the poisoning
//! discipline on failed chains, and the response envelope are all specified
//! and verified; the network transport and the JSON codec of the wire bodies
//! stay behind a small set of trusted wrappers.

pub mod builder;
pub mod builders;
pub mod client;
pub mod error;
pub mod headers;
pub mod json;
pub mod models;
pub mod util;
