//! Per-document narration pipeline: content addressing, storage keys,
//! the per-page stage machine and the aggregation of page outcomes.

pub mod document;
pub mod error;
pub mod hashing;
pub mod keys;
pub mod page;
pub mod reference;
pub mod report;
pub mod response;

use vstd::prelude::*;

verus! {

} // verus!
