//! A client-side mail synchronization core.
//!
//! The library holds the decision logic of a mailbox synchronization engine:
//! resolving provider endpoints, building the SASL token credential, mapping
//! folder listings into the canonical folder model, planning message searches
//! and batched fetches, parsing fetched messages into the canonical message
//! model, and sequencing mutations (read-state, move, delete) with their
//! failure-recovery rules. Network transport, TLS and the protocol exchange
//! itself are performed by the surrounding application, which feeds every
//! outcome back into these verified functions.

pub mod auth;
pub mod compose;
pub mod error;
pub mod folder;
pub mod message;
pub mod mutation;
pub mod provider;
pub mod sync;
pub mod text;
