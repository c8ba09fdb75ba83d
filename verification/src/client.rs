//! Client-side building blocks.

pub mod auth;
pub mod identity;
pub mod orchestrator;
