//! Laws of the packed word over whole runs of changes.

use vstd::prelude::*;

use crate::word::{
    after_claim, after_take, pack, permits, waiters, with_permit, with_waiter, without_waiter,
    FIELD_MAX,
};
use crate::sem::wakes;

verus! {

/// One change that a thread makes to the packed word.
pub enum WordOp {
    /// A post adds a permit.
    Post,
    /// A thread that never parked takes a permit.
    Take,
    /// A thread registers itself as a waiter.
    Register,
    /// A waiter leaves without a permit, after a timeout or an interruption.
    Leave,
    /// A waiter takes a permit and leaves in the same step.
    Claim,
}

/// The word after `op`; none where `op` cannot happen on `d` (no permit to
/// take, no waiter to leave) or would overflow a half of the word.
pub open spec fn apply(d: u64, op: WordOp) -> Option<u64> {
    match op {
        WordOp::Post => if permits(d) < FIELD_MAX { Some(with_permit(d)) } else { None },
        WordOp::Take => after_take(d),
        WordOp::Register => if waiters(d) < FIELD_MAX { Some(with_waiter(d)) } else { None },
        WordOp::Leave => if waiters(d) > 0 { Some(without_waiter(d)) } else { None },
        WordOp::Claim => after_claim(d),
    }
}

/// The word after the changes `ops`, in order; none where one of them cannot happen.
pub open spec fn run(d: u64, ops: Seq<WordOp>) -> Option<u64>
    decreases ops.len(),
{
    if ops.len() == 0 {
        Some(d)
    } else {
        match apply(d, ops[0]) {
            Some(e) => run(e, ops.drop_first()),
            None => None,
        }
    }
}

/// How many permits `ops` add.
pub open spec fn posted(ops: Seq<WordOp>) -> nat
    decreases ops.len(),
{
    if ops.len() == 0 {
        0
    } else {
        (if ops[0] is Post { 1nat } else { 0nat }) + posted(ops.drop_first())
    }
}

/// How many permits `ops` hand out, to threads that parked or not.
pub open spec fn claimed(ops: Seq<WordOp>) -> nat
    decreases ops.len(),
{
    if ops.len() == 0 {
        0
    } else {
        (if ops[0] is Take || ops[0] is Claim { 1nat } else { 0nat }) + claimed(ops.drop_first())
    }
}

/// How many waiters `ops` register.
pub open spec fn registered(ops: Seq<WordOp>) -> nat
    decreases ops.len(),
{
    if ops.len() == 0 {
        0
    } else {
        (if ops[0] is Register { 1nat } else { 0nat }) + registered(ops.drop_first())
    }
}

/// How many waiters `ops` take out, with a permit or without.
pub open spec fn departed(ops: Seq<WordOp>) -> nat
    decreases ops.len(),
{
    if ops.len() == 0 {
        0
    } else {
        (if ops[0] is Leave || ops[0] is Claim { 1nat } else { 0nat }) + departed(ops.drop_first())
    }
}

/// The word after `k` takes in a row from `d`; none once a take finds no permit.
pub open spec fn after_takes(d: u64, k: nat) -> Option<u64>
    decreases k,
{
    if k == 0 {
        Some(d)
    } else {
        match after_takes(d, (k - 1) as nat) {
            Some(e) => after_take(e),
            None => None,
        }
    }
}

proof fn lemma_pack_fields(w: nat, p: nat)
    requires
        w <= FIELD_MAX,
        p <= FIELD_MAX,
    ensures
        0 <= pack(w, p) < 0x1_0000_0000_0000_0000,
        permits(pack(w, p) as u64) == p,
        waiters(pack(w, p) as u64) == w,
{
    assert(0 <= pack(w, p) < 0x1_0000_0000_0000_0000) by (nonlinear_arith)
        requires
            w <= FIELD_MAX,
            p <= FIELD_MAX,
            pack(w, p) == w * 0x1_0000_0000 + p,
    ;
    let d = pack(w, p) as u64;
    assert(d == w * 0x1_0000_0000 + p);
}

proof fn lemma_takes_from(n: nat, k: nat)
    requires
        n <= FIELD_MAX,
        k <= n,
    ensures
        after_takes(n as u64, k) == Some((n - k) as u64),
    decreases k,
{
    if k > 0 {
        lemma_takes_from(n, (k - 1) as nat);
        lemma_pack_fields(0, (n - k + 1) as nat);
    }
}

/// A semaphore made with `n` permits hands out exactly `n` of them to takes
/// in a row, each leaving one permit fewer, and the take after those finds
/// none.
pub proof fn law_n_permits_n_takes(n: u32)
    ensures
        forall|k: nat| k <= n ==> #[trigger] after_takes(pack(0, n as nat) as u64, k) == Some(pack(0, (n - k) as nat) as u64),
        after_takes(pack(0, n as nat) as u64, n as nat + 1) is None,
{
    assert forall|k: nat| k <= n implies #[trigger] after_takes(pack(0, n as nat) as u64, k) == Some(pack(0, (n - k) as nat) as u64) by {
        lemma_takes_from(n as nat, k);
    }
    lemma_takes_from(n as nat, n as nat);
    lemma_pack_fields(0, 0);
}

/// Every change keeps the books of the word: the permits on the word plus
/// those handed out equal the permits it started with plus those posted, and
/// likewise for waiters. No permit is lost or handed out twice.
pub proof fn law_permits_conserved(d: u64, ops: Seq<WordOp>)
    requires
        run(d, ops) is Some,
    ensures
        permits(run(d, ops).unwrap()) + claimed(ops) == permits(d) + posted(ops),
        waiters(run(d, ops).unwrap()) + departed(ops) == waiters(d) + registered(ops),
    decreases ops.len(),
{
    if ops.len() > 0 {
        let e = apply(d, ops[0]).unwrap();
        match ops[0] {
            WordOp::Post => crate::word::lemma_with_permit(d),
            WordOp::Take => crate::word::lemma_after_take(d),
            WordOp::Register => crate::word::lemma_with_waiter(d),
            WordOp::Leave => crate::word::lemma_without_waiter(d),
            WordOp::Claim => crate::word::lemma_after_claim(d),
        }
        law_permits_conserved(e, ops.drop_first());
    }
}

/// A post on a word where a waiter is parked for want of a permit issues a
/// wake, and the waiter's claim on the posted word succeeds, leaving no
/// permit and one waiter fewer.
pub proof fn law_post_reaches_parked_waiter(d: u64)
    requires
        waiters(d) > 0,
        permits(d) == 0,
    ensures
        wakes(d),
        after_claim(with_permit(d)) is Some,
        permits(after_claim(with_permit(d)).unwrap()) == 0,
        waiters(after_claim(with_permit(d)).unwrap()) == waiters(d) - 1,
{
    crate::word::lemma_with_permit(d);
    crate::word::lemma_after_claim(with_permit(d));
}

/// `k` handoffs in a row: a post, then a parked waiter's claim, `k` times.
pub open spec fn handoffs(k: nat) -> Seq<WordOp>
    decreases k,
{
    if k == 0 {
        Seq::empty()
    } else {
        seq![WordOp::Post, WordOp::Claim] + handoffs((k - 1) as nat)
    }
}

/// With `w` waiters parked and no permit, posting once per waiter serves
/// them all: each post finds a waiter registered and so issues a wake, each
/// woken waiter's claim succeeds, and the word ends with no permit and no
/// waiter. No post is lost on the way.
pub proof fn law_posts_serve_parked_waiters(w: u32)
    ensures
        run(pack(w as nat, 0) as u64, handoffs(w as nat)) == Some(0u64),
        forall|k: nat| 0 < k <= w ==> #[trigger] wakes(pack(k, 0) as u64),
{
    lemma_handoffs(w as nat);
    assert forall|k: nat| 0 < k <= w implies #[trigger] wakes(pack(k, 0) as u64) by {
        lemma_pack_fields(k, 0);
    }
}

proof fn lemma_handoffs(k: nat)
    requires
        k <= FIELD_MAX,
    ensures
        run(pack(k, 0) as u64, handoffs(k)) == Some(0u64),
    decreases k,
{
    lemma_pack_fields(k, 0);
    if k > 0 {
        let d = pack(k, 0) as u64;
        let rest = handoffs((k - 1) as nat);
        let ops = handoffs(k);
        assert(ops =~= seq![WordOp::Post, WordOp::Claim] + rest);
        assert(ops.drop_first() =~= seq![WordOp::Claim] + rest);
        assert(ops.drop_first().drop_first() =~= rest);
        crate::word::lemma_with_permit(d);
        let e = with_permit(d);
        crate::word::lemma_after_claim(e);
        let f = after_claim(e).unwrap();
        lemma_pack_fields((k - 1) as nat, 0);
        let g = pack((k - 1) as nat, 0) as u64;
        assert(f == g) by {
            assert(f == waiters(f) * 0x1_0000_0000 + permits(f));
            assert(g == waiters(g) * 0x1_0000_0000 + permits(g));
        }
        lemma_handoffs((k - 1) as nat);
        assert(ops[0] is Post && permits(d) < FIELD_MAX);
        assert(apply(d, ops[0]) == Some(e));
        assert(run(d, ops) == run(e, ops.drop_first()));
        assert(ops.drop_first()[0] is Claim);
        assert(apply(e, ops.drop_first()[0]) == Some(f));
        assert(run(e, ops.drop_first()) == run(f, ops.drop_first().drop_first()));
    }
}

/// A waiter that registers and then leaves puts the word back as it was: it
/// takes no permit and leaves the waiter count where it found it.
pub proof fn law_leave_undoes_register(d: u64)
    ensures
        without_waiter(with_waiter(d)) == d,
{
}

} // verus!
