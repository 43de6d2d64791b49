//! A replicated, versioned key-value container for a decentralized storage
//! network, together with append-only, causally-ordered histories of its
//! access-control policy and ownership.
//!
//! The crate is organised leaf-first: plain value types, permission sets and
//! the access decision they induce, the compact textual address codec, the
//! replicated entry store with its convergence laws, the ordered history
//! sequences, the map core that composes them, and the request layer.

pub mod types;
pub mod perms;
pub mod codec;
pub mod entries;
pub mod hist;
pub mod map_data;
pub mod request;
