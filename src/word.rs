//! The packed word: permits in the low half, parked waiters in the high half,
//! with the changes that the semaphore makes to it and what each does to the
//! two counts.

use vstd::prelude::*;

verus! {

/// Bit position at which the waiter count starts inside the packed word.
pub const NWAITERS_SHIFT: u64 = 32;

/// Masks the permit count out of the packed word.
pub const VALUE_MASK: u64 = 0xffff_ffff;

/// Adding this to the packed word registers one more waiter.
pub const ONE_WAITER: u64 = 0x1_0000_0000;

/// The largest count that either half of the word can hold.
pub const FIELD_MAX: u64 = 0xffff_ffff;

/// The number of available permits that a packed word encodes (its low half).
pub open spec fn permits(d: u64) -> nat {
    (d % 0x1_0000_0000) as nat
}

/// The number of parked waiters that a packed word encodes (its high half).
pub open spec fn waiters(d: u64) -> nat {
    (d / 0x1_0000_0000) as nat
}

/// The value of the word that holds `w` waiters and `p` permits.
pub open spec fn pack(w: nat, p: nat) -> int {
    (w * 0x1_0000_0000 + p) as int
}

/// Reads the permit count out of a packed word.
pub fn permits_of(d: u64) -> (r: u64)
    ensures
        r == permits(d),
{
    proof {
        assert(d & 0xffff_ffff == d % 0x1_0000_0000) by (bit_vector);
    }
    d & VALUE_MASK
}

/// Reads the waiter count out of a packed word.
pub fn waiters_of(d: u64) -> (r: u64)
    ensures
        r == waiters(d),
{
    proof {
        assert(d >> 32 == d / 0x1_0000_0000) by (bit_vector);
    }
    d >> NWAITERS_SHIFT
}

/// Builds the word that holds `w` waiters and `p` permits.
pub fn pack_word(w: u32, p: u32) -> (d: u64)
    ensures
        d == pack(w as nat, p as nat),
        waiters(d) == w,
        permits(d) == p,
{
    let d: u64 = (w as u64) * ONE_WAITER + (p as u64);
    d
}


/// The word after one permit was added, wrapping as a 64-bit atomic add does.
pub open spec fn with_permit(d: u64) -> u64 {
    ((d as int + 1) % 0x1_0000_0000_0000_0000) as u64
}

/// The word after one waiter was registered, wrapping as a 64-bit atomic add does.
pub open spec fn with_waiter(d: u64) -> u64 {
    ((d as int + ONE_WAITER) % 0x1_0000_0000_0000_0000) as u64
}

/// The word after one waiter left, wrapping as a 64-bit atomic add of the
/// negated waiter unit does.
pub open spec fn without_waiter(d: u64) -> u64 {
    ((d as int + 0x1_0000_0000_0000_0000 - ONE_WAITER) % 0x1_0000_0000_0000_0000) as u64
}

/// The word after a thread that never parked took one permit; none where no
/// permit is available.
pub open spec fn after_take(d: u64) -> Option<u64> {
    if permits(d) > 0 {
        Some((d - 1) as u64)
    } else {
        None
    }
}

/// The word after a registered waiter took one permit and left in the same
/// step; none where no permit is available or no waiter is registered.
pub open spec fn after_claim(d: u64) -> Option<u64> {
    if permits(d) > 0 && waiters(d) > 0 {
        Some((d - 1 - ONE_WAITER) as u64)
    } else {
        None
    }
}

/// Adding a permit below the field's limit changes the permit count alone.
pub proof fn lemma_with_permit(d: u64)
    requires
        permits(d) < FIELD_MAX,
    ensures
        permits(with_permit(d)) == permits(d) + 1,
        waiters(with_permit(d)) == waiters(d),
{
    assert(d % 0x1_0000_0000 < 0xffff_ffff ==> (d + 1) < 0x1_0000_0000_0000_0000
        && ((d + 1) as u64) % 0x1_0000_0000 == d % 0x1_0000_0000 + 1
        && ((d + 1) as u64) / 0x1_0000_0000 == d / 0x1_0000_0000) by (bit_vector);
}

/// Registering a waiter below the field's limit changes the waiter count alone.
pub proof fn lemma_with_waiter(d: u64)
    requires
        waiters(d) < FIELD_MAX,
    ensures
        waiters(with_waiter(d)) == waiters(d) + 1,
        permits(with_waiter(d)) == permits(d),
{
    assert(d / 0x1_0000_0000 < 0xffff_ffff ==> (d + 0x1_0000_0000) < 0x1_0000_0000_0000_0000
        && ((d + 0x1_0000_0000) as u64) % 0x1_0000_0000 == d % 0x1_0000_0000
        && ((d + 0x1_0000_0000) as u64) / 0x1_0000_0000 == d / 0x1_0000_0000 + 1)
        by (bit_vector);
}

/// Letting a registered waiter leave changes the waiter count alone.
pub proof fn lemma_without_waiter(d: u64)
    requires
        waiters(d) > 0,
    ensures
        waiters(without_waiter(d)) == waiters(d) - 1,
        permits(without_waiter(d)) == permits(d),
{
    assert(d / 0x1_0000_0000 > 0 ==> d >= 0x1_0000_0000
        && ((d - 0x1_0000_0000) as u64) % 0x1_0000_0000 == d % 0x1_0000_0000
        && ((d - 0x1_0000_0000) as u64) / 0x1_0000_0000 == d / 0x1_0000_0000 - 1)
        by (bit_vector);
}

/// Taking a permit lowers the permit count by one and leaves the waiters.
pub proof fn lemma_after_take(d: u64)
    requires
        permits(d) > 0,
    ensures
        permits(after_take(d).unwrap()) == permits(d) - 1,
        waiters(after_take(d).unwrap()) == waiters(d),
{
    assert(d % 0x1_0000_0000 > 0 ==> d >= 1
        && ((d - 1) as u64) % 0x1_0000_0000 == d % 0x1_0000_0000 - 1
        && ((d - 1) as u64) / 0x1_0000_0000 == d / 0x1_0000_0000) by (bit_vector);
}

/// A waiter's claim lowers both counts by one.
pub proof fn lemma_after_claim(d: u64)
    requires
        permits(d) > 0,
        waiters(d) > 0,
    ensures
        permits(after_claim(d).unwrap()) == permits(d) - 1,
        waiters(after_claim(d).unwrap()) == waiters(d) - 1,
{
    assert(d % 0x1_0000_0000 > 0 && d / 0x1_0000_0000 > 0 ==> d >= 0x1_0000_0001
        && ((d - 1 - 0x1_0000_0000) as u64) % 0x1_0000_0000 == d % 0x1_0000_0000 - 1
        && ((d - 1 - 0x1_0000_0000) as u64) / 0x1_0000_0000 == d / 0x1_0000_0000 - 1)
        by (bit_vector);
}


/// The word that a waiter holds right after registering itself on `prev`.
pub fn add_waiter(prev: u64) -> (d: u64)
    ensures
        d == with_waiter(prev),
        waiters(prev) < FIELD_MAX ==> waiters(d) == waiters(prev) + 1 && permits(d) == permits(prev),
{
    proof {
        if waiters(prev) < FIELD_MAX {
            lemma_with_waiter(prev);
        }
    }
    prev.wrapping_add(ONE_WAITER)
}

/// The word to install when a thread that never parked takes a permit.
pub fn take_permit(d: u64) -> (r: Option<u64>)
    ensures
        r == after_take(d),
        r is Some <==> permits(d) > 0,
        r is Some ==> permits(r.unwrap()) == permits(d) - 1 && waiters(r.unwrap()) == waiters(d),
{
    if permits_of(d) == 0 {
        None
    } else {
        proof {
            lemma_after_take(d);
        }
        Some(d - 1)
    }
}

/// The word to install when a registered waiter takes a permit and leaves.
pub fn claim_as_waiter(d: u64) -> (r: Option<u64>)
    ensures
        r == after_claim(d),
        r is Some <==> permits(d) > 0 && waiters(d) > 0,
        r is Some ==> permits(r.unwrap()) == permits(d) - 1 && waiters(r.unwrap()) == waiters(d) - 1,
{
    if permits_of(d) == 0 || waiters_of(d) == 0 {
        None
    } else {
        proof {
            lemma_after_claim(d);
        }
        Some(d - 1 - ONE_WAITER)
    }
}

} // verus!
