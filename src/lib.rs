//! Client-side transaction driver: per-phase decision logic that carries a
//! signed transaction through submission, consensus position, effects and
//! finality, and the ledger service-info response builder.

pub mod committee;
pub mod error;
pub mod policy;
pub mod selector;
pub mod finality;
pub mod text;
pub mod driver;
pub mod service_info;
pub mod laws;
