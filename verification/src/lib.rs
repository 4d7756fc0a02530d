//! GeoVAN: trust and security evaluation for vehicular ad-hoc networks.
//!
//! The crate holds the report data model, the replay and freshness guard, the
//! anomaly classifier, the trust aggregator and the evaluator that runs them
//! in a row, together with the identity store and the configuration and
//! error types that surround them. The functions state what they return in
//! contracts over mathematical models, and the verifier checks the code
//! against them. What is taken on trust from other crates stands in
//! `outside`.

pub mod anomaly;
pub mod config;
pub mod context;
pub mod error;
pub mod evaluator;
pub mod laws;
pub mod model;
pub mod outside;
pub mod policy;
pub mod replay;
pub mod store;
pub mod traits;
pub mod trust;
pub mod utils;

pub use crate::config::Config;
pub use crate::error::GeoVANError;
pub use crate::error::Result;
pub use crate::evaluator::Evaluation;
pub use crate::evaluator::SecurityEvaluator;
pub use crate::policy::EvaluatorConfig;
pub use crate::store::IdentityStore;

use vstd::prelude::*;

verus! {

/// Version of this library.
pub const VERSION: &'static str = "0.1.0";

/// Name of this library.
pub const NAME: &'static str = "geovan";

} // verus!
