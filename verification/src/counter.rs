//! The identifier allocator: two independent counters, one per namespace,
//! each minting a strictly increasing sequence of identifiers starting at 1.

use vstd::prelude::*;

use crate::ids::{Sid, Uid};

verus! {

/// The value a counter holds after one allocation: the successor, wrapping
/// to 0 past the maximum. Wraparound is an accepted boundary condition of
/// the allocator, not an error.
pub open spec fn wrap_inc(v: u32) -> u32 {
    if v == u32::MAX {
        0
    } else {
        (v + 1) as u32
    }
}

/// The value a counter that started at `start` holds after `k` allocations.
pub open spec fn counter_after(start: u32, k: nat) -> u32
    decreases k,
{
    if k == 0 {
        start
    } else {
        wrap_inc(counter_after(start, (k - 1) as nat))
    }
}

/// A counter for generating unique identifiers.
///
/// Each allocation returns the current counter value and advances the
/// counter, so no two allocations from the same counter return the same
/// value within one wraparound period. The two namespaces never influence
/// each other. Zero is never issued by a fresh counter (both counters start
/// at 1); it is reserved as a sentinel meaning "no identifier".
///
/// Allocation takes the counter by exclusive reference and never fails;
/// callers that share one allocator across tasks coordinate that access
/// around this type.
pub struct IdCounter {
    next_sid: u32,
    next_uid: u32,
}

impl IdCounter {
    /// The shell counter's current value: the raw value the next call to
    /// `next_sid` returns.
    pub closed spec fn sid_state(self) -> u32 {
        self.next_sid
    }

    /// The user counter's current value: the raw value the next call to
    /// `next_uid` returns.
    pub closed spec fn uid_state(self) -> u32 {
        self.next_uid
    }

    /// Returns the next unique shell ID.
    ///
    /// The user counter is untouched: the two namespaces are independent.
    pub fn next_sid(&mut self) -> (r: Sid)
        ensures
            r.0 == old(self).sid_state(),
            final(self).sid_state() == wrap_inc(old(self).sid_state()),
            final(self).uid_state() == old(self).uid_state(),
    {
        let v = self.next_sid;
        self.next_sid = if v == u32::MAX {
            0
        } else {
            v + 1
        };
        Sid(v)
    }

    /// Returns the next unique user ID.
    ///
    /// The shell counter is untouched: the two namespaces are independent.
    pub fn next_uid(&mut self) -> (r: Uid)
        ensures
            r.0 == old(self).uid_state(),
            final(self).uid_state() == wrap_inc(old(self).uid_state()),
            final(self).sid_state() == old(self).sid_state(),
    {
        let v = self.next_uid;
        self.next_uid = if v == u32::MAX {
            0
        } else {
            v + 1
        };
        Uid(v)
    }
}

impl Default for IdCounter {
    /// A fresh allocator: both counters start at 1, so 0 is never issued.
    fn default() -> (r: Self)
        ensures
            r.sid_state() == 1,
            r.uid_state() == 1,
    {
        IdCounter { next_sid: 1, next_uid: 1 }
    }
}

/// A counter that started fresh (at 1) holds `k + 1` after `k` allocations,
/// as long as the counter has not wrapped; so the `k`-th allocation
/// (counting from 0) returns the raw value `k + 1`.
pub proof fn lemma_fresh_counter_value(k: nat)
    requires
        k < u32::MAX,
    ensures
        counter_after(1, k) == k + 1,
    decreases k,
{
    if k > 0 {
        lemma_fresh_counter_value((k - 1) as nat);
    }
}

/// The set of raw values returned by the first `n` allocations from a fresh
/// counter.
pub open spec fn allocated_values(n: nat) -> Set<u32> {
    Set::new(|v: u32| exists|k: nat| k < n && #[trigger] counter_after(1, k) == v)
}

/// The first `n` allocations from a fresh counter are pairwise distinct and
/// form exactly the set `{1, ..., n}`, absent overflow.
pub proof fn lemma_fresh_allocations_distinct(n: nat)
    requires
        n <= u32::MAX,
    ensures
        forall|i: nat, j: nat|
            i < j < n ==> counter_after(1, i) != counter_after(1, j),
        allocated_values(n) =~= Set::new(|v: u32| 1 <= v <= n),
{
    assert forall|i: nat, j: nat|
        i < j < n implies counter_after(1, i) != counter_after(1, j) by {
        lemma_fresh_counter_value(i);
        lemma_fresh_counter_value(j);
    }
    assert forall|v: u32| Set::new(|v: u32| 1 <= v <= n).contains(v)
        implies allocated_values(n).contains(v) by {
        lemma_fresh_counter_value((v - 1) as nat);
        assert(counter_after(1, (v - 1) as nat) == v);
    }
    assert forall|v: u32| allocated_values(n).contains(v)
        implies Set::new(|v: u32| 1 <= v <= n).contains(v) by {
        let k = choose|k: nat| k < n && #[trigger] counter_after(1, k) == v;
        lemma_fresh_counter_value(k);
    }
}

/// Allocation order agrees with value order: of two allocations from the
/// same fresh counter, the earlier one returns the strictly smaller raw
/// value, and conversely, absent overflow.
pub proof fn lemma_allocation_order(i: nat, j: nat)
    requires
        i < u32::MAX,
        j < u32::MAX,
    ensures
        i < j <==> counter_after(1, i) < counter_after(1, j),
{
    lemma_fresh_counter_value(i);
    lemma_fresh_counter_value(j);
}

} // verus!
