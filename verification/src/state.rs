//! The singleton contract state and the per-invocation execution context.

use vstd::prelude::*;

verus! {

/// The execution context the host supplies for one invocation: the current
/// block height and the authenticated, canonical identity of the caller.
#[derive(Debug, PartialEq)]
pub struct Env {
    pub height: i64,
    pub signer: Vec<u8>,
}

/// The singleton configuration and lifecycle record of the contract.
/// Addresses are held in canonical (binary) form.
#[derive(Debug, PartialEq)]
pub struct State {
    pub region: String,
    pub beneficiary: Vec<u8>,
    pub owner: Vec<u8>,
    pub oracle: Vec<u8>,
    pub ecostate: i64,
    pub total_tokens: i64,
    pub released_tokens: i64,
    pub payout_start_height: Option<i64>,
    pub payout_end_height: Option<i64>,
    pub is_locked: bool,
}

/// Two states carry the same contents, compared through the views of their
/// heap-allocated fields.
pub open spec fn same_state(a: State, b: State) -> bool {
    &&& a.region@ == b.region@
    &&& a.beneficiary@ == b.beneficiary@
    &&& a.owner@ == b.owner@
    &&& a.oracle@ == b.oracle@
    &&& a.ecostate == b.ecostate
    &&& a.total_tokens == b.total_tokens
    &&& a.released_tokens == b.released_tokens
    &&& a.payout_start_height == b.payout_start_height
    &&& a.payout_end_height == b.payout_end_height
    &&& a.is_locked == b.is_locked
}

impl State {
    /// The supply invariant: what has been released never exceeds the total,
    /// and is never negative.
    pub open spec fn wf(&self) -> bool {
        0 <= self.released_tokens <= self.total_tokens
    }

    /// The payout window has opened: a start height is recorded and the
    /// current height has reached it.
    pub open spec fn spec_started(&self, height: i64) -> bool {
        match self.payout_start_height {
            Some(start) => start <= height,
            None => false,
        }
    }

    /// The payout window has closed: an end height is recorded and the
    /// current height lies strictly past it.
    pub open spec fn spec_expired(&self, height: i64) -> bool {
        match self.payout_end_height {
            Some(end) => height > end,
            None => false,
        }
    }

    /// Every token of the supply has been released.
    pub open spec fn spec_done(&self) -> bool {
        self.released_tokens == self.total_tokens
    }

    /// Whether the payout window has opened at the context's height.
    pub fn is_started(&self, env: &Env) -> (r: bool)
        ensures
            r == self.spec_started(env.height),
    {
        if let Some(start_height) = self.payout_start_height {
            if start_height <= env.height {
                return true;
            }
        }
        false
    }

    /// Whether the payout window has closed at the context's height.
    pub fn is_expired(&self, env: &Env) -> (r: bool)
        ensures
            r == self.spec_expired(env.height),
    {
        if let Some(end_height) = self.payout_end_height {
            if env.height > end_height {
                return true;
            }
        }
        false
    }

    /// Whether the whole supply has been released.
    pub fn is_done(&self) -> (r: bool)
        ensures
            r == self.spec_done(),
    {
        self.released_tokens == self.total_tokens
    }

    /// Whether ecostate updates are locked out.
    pub fn is_locked(&self) -> (r: bool)
        ensures
            r == self.is_locked,
    {
        self.is_locked
    }

    /// A copy of this state, for read-only query responses.
    pub fn snapshot(&self) -> (r: State)
        ensures
            same_state(r, *self),
    {
        State {
            region: self.region.clone(),
            beneficiary: clone_bytes(&self.beneficiary),
            owner: clone_bytes(&self.owner),
            oracle: clone_bytes(&self.oracle),
            ecostate: self.ecostate,
            total_tokens: self.total_tokens,
            released_tokens: self.released_tokens,
            payout_start_height: self.payout_start_height,
            payout_end_height: self.payout_end_height,
            is_locked: self.is_locked,
        }
    }
}

/// Copies a byte vector, preserving its contents.
pub fn clone_bytes(v: &Vec<u8>) -> (r: Vec<u8>)
    ensures
        r@ == v@,
{
    let r = v.clone();
    proof {
        assert(r@ =~= v@);
    }
    r
}

} // verus!
