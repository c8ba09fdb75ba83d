//! Identity resolution for a client that can authenticate its requests under
//! several schemes.
//!
//! An [`client::identity::Identity`] carries credential material of any type
//! together with an optional expiration. Resolvers produce identities; they
//! are bound to authentication schemes, and a per-attempt snapshot of those
//! bindings answers which resolver serves a scheme.

pub mod client;
