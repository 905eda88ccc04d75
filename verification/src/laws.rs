//! General laws of the engine, proved from the handler contracts alone.

use vstd::arithmetic::div_mod::lemma_div_pos_is_pos;
use vstd::prelude::*;

use crate::codec::{
    be_bytes, dec_rep, lemma_be_bytes_len, lemma_be_val_of_be_bytes, lemma_pow256_16,
};
use crate::contract::{
    addr_change_post, clamped_release, credit_fits, lock_post, query_post, raw_release,
    update_post, update_reject,
};
use crate::errors::{spec_kind, Error, ErrorKind};
use crate::ledger::{stored_ok, stored_val};
use crate::msg::{AddrInput, QueryAnswer, QueryMsg, Response};
use crate::state::State;

verus! {

/// The release of one ecostate step is never negative and never exceeds
/// the unreleased remainder of the supply.
pub proof fn lemma_release_within_remainder(old_eco: int, new_eco: int, total: int, released: int)
    requires
        0 <= released <= total,
    ensures
        0 <= clamped_release(old_eco, new_eco, total, released),
        released + clamped_release(old_eco, new_eco, total, released) <= total,
{
    let change = new_eco - old_eco;
    if 0 <= change < 100 && new_eco > 5000 {
        lemma_div_pos_is_pos((new_eco - 5000) * 2 + 50, 100);
    }
}

/// Whatever one ecostate update does, `released_tokens` does not decrease,
/// `total_tokens` does not change, and the supply invariant is kept. Applied
/// along any sequence of updates, `released_tokens` is therefore
/// non-decreasing and never exceeds `total_tokens`.
pub proof fn lemma_released_monotonic(
    pre: State,
    post: State,
    pre_m: Map<Seq<u8>, Seq<u8>>,
    post_m: Map<Seq<u8>, Seq<u8>>,
    height: i64,
    signer: Seq<u8>,
    new_eco: i64,
    r: Result<Response, Error>,
)
    requires
        pre.wf(),
        update_post(pre, post, pre_m, post_m, height, signer, new_eco, r),
    ensures
        post.wf(),
        post.total_tokens == pre.total_tokens,
        pre.released_tokens <= post.released_tokens,
{
    lemma_release_within_remainder(
        pre.ecostate as int,
        new_eco as int,
        pre.total_tokens as int,
        pre.released_tokens as int,
    );
}

/// Once the supply is exhausted, every further ecostate update is rejected
/// with a lifecycle error, regardless of the caller.
pub proof fn lemma_done_always_rejected(s: State, height: i64, signer: Seq<u8>)
    requires
        s.spec_done(),
    ensures
        update_reject(s, height, signer) matches Some(e) && spec_kind(e)
            == ErrorKind::BusinessState,
{
}

/// A locked contract rejects every ecostate update, for every caller,
/// the oracle included.
pub proof fn lemma_locked_rejects(s: State, height: i64, signer: Seq<u8>)
    requires
        s.is_locked,
    ensures
        update_reject(s, height, signer) is Some,
        spec_kind(update_reject(s, height, signer)->Some_0) == ErrorKind::BusinessState,
{
}

/// The lock does not hinder the owner: lock and unlock succeed for the
/// owner whatever the lock flag says beforehand.
pub proof fn lemma_lock_ops_ignore_lock(
    pre: State,
    post: State,
    signer: Seq<u8>,
    locked: bool,
    action: Seq<char>,
    r: Result<Response, Error>,
)
    requires
        signer == pre.owner@,
        lock_post(pre, post, signer, locked, action, r),
    ensures
        r is Ok,
        post.is_locked == locked,
{
}

/// The lock does not hinder the owner: an address change whose
/// canonicalization succeeded goes through whatever the lock flag says.
pub proof fn lemma_addr_change_ignores_lock(
    pre: State,
    post: State,
    signer: Seq<u8>,
    addr: AddrInput,
    expected: State,
    action: Seq<char>,
    field: Seq<char>,
    r: Result<Response, Error>,
)
    requires
        signer == pre.owner@,
        addr.canonical is Ok,
        addr_change_post(pre, post, signer, addr, expected, action, field, r),
    ensures
        r is Ok,
{
}

/// The payout window: an update before the start height (or with no start
/// height recorded) is rejected as not started; one past the end height is
/// rejected as expired; at the end height itself the window still admits
/// the update.
pub proof fn lemma_window_boundaries(s: State, height: i64, signer: Seq<u8>)
    ensures
        (match s.payout_start_height {
            Some(start) => height < start,
            None => true,
        }) ==> update_reject(s, height, signer) == Some(Error::NotStarted),
        (s.spec_started(height) && (match s.payout_end_height {
            Some(end) => height > end,
            None => false,
        })) ==> update_reject(s, height, signer) == Some(Error::Expired),
        (s.spec_started(height) && s.payout_end_height == Some(height) && !s.is_locked
            && !s.spec_done() && signer == s.oracle@) ==> update_reject(s, height, signer)
            is None,
{
}

/// Authorization: within an open, unlocked, unexhausted window, a caller
/// other than the oracle is rejected as unauthorized.
pub proof fn lemma_update_requires_oracle(s: State, height: i64, signer: Seq<u8>)
    requires
        s.spec_started(height),
        !s.spec_expired(height),
        !s.is_locked,
        !s.spec_done(),
        signer != s.oracle@,
    ensures
        update_reject(s, height, signer) == Some(Error::Unauthorized),
{
}

/// Authorization: a caller other than the owner is rejected by lock and
/// unlock, and the state is left untouched.
pub proof fn lemma_lock_ops_require_owner(
    pre: State,
    post: State,
    signer: Seq<u8>,
    locked: bool,
    action: Seq<char>,
    r: Result<Response, Error>,
)
    requires
        signer != pre.owner@,
        lock_post(pre, post, signer, locked, action, r),
    ensures
        r == Err::<Response, Error>(Error::Unauthorized),
        post == pre,
{
}

/// Authorization: a caller other than the owner is rejected by every
/// address change, and the state is left untouched.
pub proof fn lemma_addr_change_requires_owner(
    pre: State,
    post: State,
    signer: Seq<u8>,
    addr: AddrInput,
    expected: State,
    action: Seq<char>,
    field: Seq<char>,
    r: Result<Response, Error>,
)
    requires
        signer != pre.owner@,
        addr_change_post(pre, post, signer, addr, expected, action, field, r),
    ensures
        r == Err::<Response, Error>(Error::Unauthorized),
        post == pre,
{
}

/// A failed ecostate update commits nothing: on any error the state and
/// the ledger are exactly as they were.
pub proof fn lemma_update_error_leaves_no_trace(
    pre: State,
    post: State,
    pre_m: Map<Seq<u8>, Seq<u8>>,
    post_m: Map<Seq<u8>, Seq<u8>>,
    height: i64,
    signer: Seq<u8>,
    new_eco: i64,
    r: Result<Response, Error>,
)
    requires
        update_post(pre, post, pre_m, post_m, height, signer, new_eco, r),
        r is Err,
    ensures
        post == pre,
        post_m == pre_m,
{
}

/// Clamping: when the raw release would reach or exceed the unreleased
/// remainder, exactly the remainder is credited and the supply ends up
/// fully released.
pub proof fn lemma_clamp_exhausts_supply(old_eco: int, new_eco: int, total: int, released: int)
    requires
        0 <= released <= total,
        raw_release(old_eco, new_eco) >= total - released,
        raw_release(old_eco, new_eco) > 0,
    ensures
        clamped_release(old_eco, new_eco, total, released) == total - released,
        released + clamped_release(old_eco, new_eco, total, released) == total,
{
}

/// Round trip through the engine: after a successful ecostate update that
/// credited the beneficiary, a balance query for that address renders
/// exactly the former balance plus the credited release, in decimal.
pub proof fn lemma_update_then_balance_query(
    pre: State,
    post: State,
    pre_m: Map<Seq<u8>, Seq<u8>>,
    post_m: Map<Seq<u8>, Seq<u8>>,
    height: i64,
    signer: Seq<u8>,
    new_eco: i64,
    r: Result<Response, Error>,
    addr: AddrInput,
    qr: Result<QueryAnswer, Error>,
)
    requires
        pre.wf(),
        credit_fits(pre, pre_m, new_eco as int),
        update_post(pre, post, pre_m, post_m, height, signer, new_eco, r),
        r is Ok,
        clamped_release(
            pre.ecostate as int,
            new_eco as int,
            pre.total_tokens as int,
            pre.released_tokens as int,
        ) > 0,
        addr.canonical matches Ok(c) && c@ == pre.beneficiary@,
        stored_ok(pre_m, pre.beneficiary@),
        query_post(post, post_m, QueryMsg::Balance { address: addr }, qr),
    ensures
        qr matches Ok(a) && (a matches QueryAnswer::Balance(b) && b.balance@ == dec_rep(
            (stored_val(pre_m, pre.beneficiary@) + clamped_release(
                pre.ecostate as int,
                new_eco as int,
                pre.total_tokens as int,
                pre.released_tokens as int,
            )) as nat,
        )),
{
    let rel = clamped_release(
        pre.ecostate as int,
        new_eco as int,
        pre.total_tokens as int,
        pre.released_tokens as int,
    );
    let credited = (stored_val(pre_m, pre.beneficiary@) + rel) as u128;
    lemma_credit_then_read(pre_m, pre.beneficiary@, credited);
}

/// Round trip through the ledger: a credit written as 16 big-endian bytes
/// reads back as exactly the credited value, and an address never credited
/// reads as zero.
pub proof fn lemma_credit_then_read(m: Map<Seq<u8>, Seq<u8>>, k: Seq<u8>, v: u128)
    ensures
        stored_ok(m.insert(k, be_bytes(v as nat, 16)), k),
        stored_val(m.insert(k, be_bytes(v as nat, 16)), k) == v as nat,
        !m.contains_key(k) ==> stored_ok(m, k) && stored_val(m, k) == 0,
{
    lemma_be_bytes_len(v as nat, 16);
    lemma_pow256_16();
    lemma_be_val_of_be_bytes(v as nat, 16);
}

} // verus!
