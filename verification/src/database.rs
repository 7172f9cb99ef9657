//! The resolved authorized-user record.
//!
//! Authorization itself is a single-row lookup done by the caller before the
//! router is invoked; only the resolved record reaches the core.

use vstd::prelude::*;

verus! {

/// A requester that the caller has already resolved as authorized.
pub struct DbUser {
    pub name: String,
}

} // verus!
