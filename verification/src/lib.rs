//! Verified core of the APEX registries: agent identity, feedback
//! authorization, validation requests, campaign escrow and ads.

pub mod constants;
pub mod errors;
pub mod keys;
pub mod digest;
pub mod state;
pub mod campaign;
pub mod identity;
pub mod reputation;
pub mod validation;
pub mod ads;
pub mod history;
pub mod laws;
