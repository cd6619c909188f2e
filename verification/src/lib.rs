//! Authorization-gated group messaging sessions.
//!
//! The crate maintains authenticated group sessions among parties identified
//! by long-term signing credentials.  It covers credential issuance and
//! storage, ephemeral key-package issuance for handshake initiation, an
//! authorization gate restricting membership to an approved set of public
//! keys, and a group-session controller that creates groups, proposes and
//! commits membership changes, and admits joiners from a welcome artifact.
//!
//! Cryptographic primitives (hashing, key generation) are supplied by an
//! external provider behind a narrow, trusted interface; everything else is
//! verified.

pub mod authorization;
pub mod codec;
pub mod crypto;
pub mod group;
pub mod credential;
pub mod key_package;
pub mod laws;
pub mod store;
