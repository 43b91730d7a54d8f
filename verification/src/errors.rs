//! Error taxonomy for the ledger.
//!
//! Every failure a caller can see is one of these three classes; conditions
//! that a caller cannot recover from are never reached, because each entry
//! point validates its inputs before touching any state.

use vstd::prelude::*;

verus! {

/// The caller-visible error classes.
///
/// - `NotFound`: a referenced campaign, event, partner, token or pending
///   operation does not exist.
/// - `InvalidInput`: a malformed memo or date, a non-numeric or oversized
///   amount, an inconsistent target, or a duplicate id.
/// - `Unauthorized`: a confirmation entry point was invoked by anyone but
///   the system itself.
#[derive(Clone, Copy, Debug, PartialEq, Eq, Structural)]
pub enum LedgerError {
    NotFound,
    InvalidInput,
    Unauthorized,
}

} // verus!
