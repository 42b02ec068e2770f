//! Security self-audits of smart contracts in a contract registry.
//!
//! A fixed checklist catalog is matched against a contract's source text by
//! pattern detection, reviewed by hand, and scored per category and overall;
//! the result is reported as a merged view or exported as Markdown.
use vstd::prelude::*;

pub mod models;
pub mod catalog;
pub mod detection;
pub mod scoring;
pub mod text;
pub mod audit;
pub mod report;
pub mod export;
pub mod standard;
pub mod runtime;

verus! {

} // verus!
