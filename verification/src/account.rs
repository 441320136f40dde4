//! Account identifiers.

use vstd::prelude::*;

verus! {

/// The identifier of an account on the ledger. A target service is an account
/// too, so the same type names both the callers and the services they mint on.
///
/// The proxy never looks inside an identifier: it compares identifiers for
/// equality and passes them on. In contracts an identifier stands for its
/// characters, `id@`.
pub type AccountId = String;

} // verus!
