//! An append-only ledger of blocks, each bound to its predecessor by a
//! cryptographic digest, so that any retroactive change of history is
//! detectable.

use vstd::prelude::*;

pub mod digest;
pub mod ledger;

verus! {

} // verus!
