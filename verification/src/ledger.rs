//! The confirmation ledger: per-identity instants of initiated two-step
//! actions.
//!
//! Opening the entrance gate takes two requests from the same identity within a
//! bounded window. `record_pending` notes the instant the first step was
//! taken; `is_confirmed_within` answers whether a second step arriving `now`
//! still falls inside the window. Instants are milliseconds on a monotonic
//! clock supplied by the caller. Entries are never evicted, and a lookup
//! does not consume the entry, so a confirmation can be used repeatedly
//! until its window elapses; both are deliberate simplifications.

use vstd::prelude::*;
use std::collections::HashMap;

verus! {

broadcast use vstd::std_specs::hash::group_hash_axioms;

/// True when `m` holds an entry for `id` recorded at or before `now` and no
/// more than `window` milliseconds ago. This is the mathematical meaning of
/// a successful confirmation.
pub open spec fn confirmed_within(m: Map<u64, u64>, id: u64, window: u64, now: u64) -> bool {
    &&& m.contains_key(id)
    &&& now >= m[id]
    &&& now - m[id] <= window
}

/// Tracks, per requesting identity, the instant a two-step action was
/// initiated. At most one pending instant per identity: a new recording
/// overwrites any prior one (last-prepare-wins).
pub struct ConfirmationLedger {
    pending: HashMap<u64, u64>,
}

impl View for ConfirmationLedger {
    type V = Map<u64, u64>;

    closed spec fn view(&self) -> Map<u64, u64> {
        self.pending@
    }
}

impl ConfirmationLedger {
    /// A ledger with no pending confirmation.
    pub fn new() -> (r: ConfirmationLedger)
        ensures
            r@ == Map::<u64, u64>::empty(),
    {
        ConfirmationLedger { pending: HashMap::new() }
    }

    /// Record that `identity` initiated a two-step action at instant `now`,
    /// overwriting any earlier pending instant for the same identity.
    pub fn record_pending(&mut self, identity: u64, now: u64)
        ensures
            final(self)@ == old(self)@.insert(identity, now),
    {
        self.pending.insert(identity, now);
    }

    /// True iff `identity` has a pending instant and `now` lies within
    /// `window` milliseconds of it. Never mutates the ledger.
    pub fn is_confirmed_within(&self, identity: u64, window: u64, now: u64) -> (r: bool)
        ensures
            r == confirmed_within(self@, identity, window, now),
    {
        match self.pending.get(&identity) {
            Some(recorded) => now >= *recorded && now - *recorded <= window,
            None => false,
        }
    }
}

/// Law: a confirmation recorded at `t0` is accepted at `now` exactly when no
/// more than `window` milliseconds have elapsed since `t0`, whatever the
/// ledger held before.
pub proof fn lemma_confirmation_window(m: Map<u64, u64>, id: u64, t0: u64, window: u64, now: u64)
    requires
        now >= t0,
    ensures
        confirmed_within(m.insert(id, t0), id, window, now) == (now - t0 <= window),
{
}

/// Law: recording a pending instant for one identity never changes whether
/// any other identity is confirmed.
pub proof fn lemma_identities_independent(
    m: Map<u64, u64>,
    recorded: u64,
    other: u64,
    t0: u64,
    window: u64,
    now: u64,
)
    requires
        recorded != other,
    ensures
        confirmed_within(m.insert(recorded, t0), other, window, now) == confirmed_within(
            m,
            other,
            window,
            now,
        ),
{
}

} // verus!
