//! Envelope mechanism of an OPAQUE-style asymmetric PAKE.
//!
//! An envelope is the record a server stores per user: a nonce and a keyed
//! MAC over the nonce and the authenticated associated data (server public
//! key and both identities). A client that can recompute the randomized
//! password secret recovers its static key pair and an export key from the
//! envelope; anyone else is rejected with a uniform authentication failure.

pub mod crypto;
pub mod envelope;
pub mod errors;
pub mod laws;
pub mod model;
pub mod slow_hash;
