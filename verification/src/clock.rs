//! Wall-clock access.
//!
//! Consensus components take timestamps as explicit arguments wherever a
//! contract depends on them; this wrapper only supplies the ambient time
//! for freshly created transactions and blocks.

use vstd::prelude::*;

verus! {

/// Relies on std::time::SystemTime::now: the seconds elapsed since the
/// Unix epoch. Nothing is promised of the value.
#[verifier::external_body]
pub fn current_timestamp() -> u64 {
    match std::time::SystemTime::now().duration_since(std::time::UNIX_EPOCH) {
        Ok(d) => d.as_secs(),
        Err(_) => 0,
    }
}

} // verus!
