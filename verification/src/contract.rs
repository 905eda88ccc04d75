//! The handlers: initialization, the six handle operations, and the two
//! queries. Each handler takes the contract state, the balance ledger and
//! the execution context explicitly, and its contract pins down the exact
//! outcome — which error on which input, and the precise new state, ledger
//! and log on success. The host commits the mutated state and ledger only
//! when the handler returns success.

use vstd::prelude::*;

use crate::codec::{be_bytes, dec_rep, dec_rep_signed, i64_to_dec, u128_to_be_bytes, u128_to_dec};
use crate::errors::Error;
use crate::ledger::{bytes_eq, read_balance, stored_ok, stored_val, Ledger};
use crate::msg::{
    resp_log, AddrInput, BalanceResponse, HandleMsg, InitMsg, LogEntry, QueryAnswer, QueryMsg,
    Response,
};
use crate::state::{same_state, Env, State};

verus! {

/// The release a single ecostate transition earns, before clamping:
/// nothing for a drop; for a small rise (below 100) a round-half-up bonus of
/// two per hundred of the part of the new ecostate above 5000; the full
/// change, one token per unit, for a rise of at least 100.
pub open spec fn raw_release(old_eco: int, new_eco: int) -> int {
    let change = new_eco - old_eco;
    if change < 0 {
        0
    } else if change < 100 {
        if new_eco > 5000 {
            ((new_eco - 5000) * 2 + 50) / 100
        } else {
            0
        }
    } else {
        change
    }
}

/// The release actually credited: the raw release, clamped to the part of
/// the total supply not yet released.
pub open spec fn clamped_release(old_eco: int, new_eco: int, total: int, released: int) -> int {
    let raw = raw_release(old_eco, new_eco);
    let remain = total - released;
    if raw > 0 && raw > remain {
        remain
    } else {
        raw
    }
}

/// The 64-bit arithmetic of one ecostate step stays in range.
pub open spec fn step_fits(old_eco: int, new_eco: int) -> bool {
    &&& i64::MIN <= new_eco - old_eco <= i64::MAX
    &&& (0 <= new_eco - old_eco < 100 && new_eco > 5000 ==> (new_eco - 5000) * 2 + 50
        <= i64::MAX)
}

/// The beneficiary's stored balance, if well-formed, leaves room for the
/// credit of this step.
pub open spec fn credit_fits(s: State, m: Map<Seq<u8>, Seq<u8>>, new_eco: int) -> bool {
    stored_ok(m, s.beneficiary@) ==> stored_val(m, s.beneficiary@) + clamped_release(
        s.ecostate as int,
        new_eco,
        s.total_tokens as int,
        s.released_tokens as int,
    ) <= u128::MAX
}

/// The first precondition an ecostate update fails, if any, in the order
/// the engine checks them: window not open, window closed, locked, supply
/// exhausted, caller not the oracle.
pub open spec fn update_reject(s: State, height: i64, signer: Seq<u8>) -> Option<Error> {
    if !s.spec_started(height) {
        Some(Error::NotStarted)
    } else if s.spec_expired(height) {
        Some(Error::Expired)
    } else if s.is_locked {
        Some(Error::Locked)
    } else if s.spec_done() {
        Some(Error::Done)
    } else if signer != s.oracle@ {
        Some(Error::Unauthorized)
    } else {
        None
    }
}

/// The log of a successful ecostate update.
pub open spec fn update_log(old_eco: i64, new_eco: i64, rel: int) -> Seq<(Seq<char>, Seq<char>)> {
    seq![
        ("action"@, "update_ecostate"@),
        ("old_ecostate"@, dec_rep_signed(old_eco as int)),
        ("new_ecostate"@, dec_rep_signed(new_eco as int)),
        ("change_ecostate"@, dec_rep_signed(new_eco - old_eco)),
        ("release_tokens"@, dec_rep_signed(rel)),
    ]
}

/// The exact outcome of an ecostate update: which rejection on which
/// precondition, and otherwise the new state, the credited ledger and the
/// emitted log.
pub open spec fn update_post(
    pre: State,
    post: State,
    pre_m: Map<Seq<u8>, Seq<u8>>,
    post_m: Map<Seq<u8>, Seq<u8>>,
    height: i64,
    signer: Seq<u8>,
    new_eco: i64,
    r: Result<Response, Error>,
) -> bool {
    let rel = clamped_release(
        pre.ecostate as int,
        new_eco as int,
        pre.total_tokens as int,
        pre.released_tokens as int,
    );
    match update_reject(pre, height, signer) {
        Some(e) => r == Err::<Response, Error>(e) && post == pre && post_m == pre_m,
        None => if rel > 0 && !stored_ok(pre_m, pre.beneficiary@) {
            r == Err::<Response, Error>(Error::CorruptedData) && post == pre && post_m == pre_m
        } else {
            &&& post == State {
                ecostate: new_eco,
                released_tokens: (pre.released_tokens + rel) as i64,
                ..pre
            }
            &&& post_m == if rel > 0 {
                pre_m.insert(
                    pre.beneficiary@,
                    be_bytes((stored_val(pre_m, pre.beneficiary@) + rel) as nat, 16),
                )
            } else {
                pre_m
            }
            &&& r matches Ok(resp) && resp_log(resp) =~= update_log(pre.ecostate, new_eco, rel)
        },
    }
}

/// Handles an ecostate report from the oracle: checks the lifecycle
/// preconditions, computes and clamps the release, credits the beneficiary,
/// and records the new ecostate.
pub fn update_ecostate(state: &mut State, store: &mut Ledger, env: &Env, new_ecostate: i64) -> (r:
    Result<Response, Error>)
    requires
        old(state).wf(),
        old(store).wf(),
        step_fits(old(state).ecostate as int, new_ecostate as int),
        credit_fits(*old(state), old(store)@, new_ecostate as int),
    ensures
        final(state).wf(),
        final(store).wf(),
        update_post(
            *old(state),
            *final(state),
            old(store)@,
            final(store)@,
            env.height,
            env.signer@,
            new_ecostate,
            r,
        ),
{
    if !state.is_started(env) {
        return Err(Error::NotStarted);
    }
    if state.is_expired(env) {
        return Err(Error::Expired);
    }
    if state.is_locked() {
        return Err(Error::Locked);
    }
    if state.is_done() {
        return Err(Error::Done);
    }
    if !bytes_eq(env.signer.as_slice(), state.oracle.as_slice()) {
        return Err(Error::Unauthorized);
    }
    let old_ecostate = state.ecostate;
    let change_amount: i64 = new_ecostate - state.ecostate;
    let mut release_tokens: i64;
    if change_amount < 0 {
        release_tokens = 0;
    } else if change_amount < 100 {
        if 5000 < new_ecostate {
            let above50: i64 = new_ecostate - 5000;
            release_tokens = (above50 * 2 + 50) / 100;
        } else {
            release_tokens = 0;
        }
    } else {
        release_tokens = change_amount;
    }
    assert(release_tokens as int == raw_release(old_ecostate as int, new_ecostate as int));
    if release_tokens > 0 {
        let remain_tokens = state.total_tokens - state.released_tokens;
        if release_tokens > remain_tokens {
            release_tokens = remain_tokens;
        }
        let from_balance = match read_balance(store, &state.beneficiary) {
            Ok(b) => b,
            Err(e) => {
                return Err(e);
            },
        };
        let new_balance = from_balance + release_tokens as u128;
        let encoded = u128_to_be_bytes(new_balance);
        store.set(state.beneficiary.as_slice(), encoded);
    }
    assert(release_tokens as int == clamped_release(
        old_ecostate as int,
        new_ecostate as int,
        state.total_tokens as int,
        state.released_tokens as int,
    ));
    state.ecostate = new_ecostate;
    state.released_tokens = state.released_tokens + release_tokens;
    let mut log: Vec<LogEntry> = Vec::new();
    log.push(
        LogEntry {
            key: String::from_str("action"),
            value: String::from_str("update_ecostate"),
        },
    );
    log.push(LogEntry { key: String::from_str("old_ecostate"), value: i64_to_dec(old_ecostate) });
    log.push(LogEntry { key: String::from_str("new_ecostate"), value: i64_to_dec(new_ecostate) });
    log.push(
        LogEntry { key: String::from_str("change_ecostate"), value: i64_to_dec(change_amount) },
    );
    log.push(
        LogEntry { key: String::from_str("release_tokens"), value: i64_to_dec(release_tokens) },
    );
    let resp = Response { log };
    proof {
        assert(resp_log(resp) =~= update_log(
            old_ecostate,
            new_ecostate,
            release_tokens as int,
        ));
    }
    Ok(resp)
}

/// The outcome of an owner-only lock or unlock: rejection for any other
/// caller, else the single flag flips and one log entry names the action.
pub open spec fn lock_post(
    pre: State,
    post: State,
    signer: Seq<u8>,
    locked: bool,
    action: Seq<char>,
    r: Result<Response, Error>,
) -> bool {
    if signer != pre.owner@ {
        r == Err::<Response, Error>(Error::Unauthorized) && post == pre
    } else {
        &&& post == State { is_locked: locked, ..pre }
        &&& r matches Ok(resp) && resp_log(resp) =~= seq![("action"@, action)]
    }
}

/// Locks ecostate updates out. Owner only.
pub fn lock(state: &mut State, env: &Env) -> (r: Result<Response, Error>)
    ensures
        lock_post(*old(state), *final(state), env.signer@, true, "lock"@, r),
{
    if !bytes_eq(env.signer.as_slice(), state.owner.as_slice()) {
        return Err(Error::Unauthorized);
    }
    state.is_locked = true;
    let mut log: Vec<LogEntry> = Vec::new();
    log.push(LogEntry { key: String::from_str("action"), value: String::from_str("lock") });
    let resp = Response { log };
    proof {
        assert(resp_log(resp) =~= seq![("action"@, "lock"@)]);
    }
    Ok(resp)
}

/// Lets ecostate updates in again. Owner only.
pub fn unlock(state: &mut State, env: &Env) -> (r: Result<Response, Error>)
    ensures
        lock_post(*old(state), *final(state), env.signer@, false, "unlock"@, r),
{
    if !bytes_eq(env.signer.as_slice(), state.owner.as_slice()) {
        return Err(Error::Unauthorized);
    }
    state.is_locked = false;
    let mut log: Vec<LogEntry> = Vec::new();
    log.push(LogEntry { key: String::from_str("action"), value: String::from_str("unlock") });
    let resp = Response { log };
    proof {
        assert(resp_log(resp) =~= seq![("action"@, "unlock"@)]);
    }
    Ok(resp)
}

/// The outcome of an owner-only address change: rejection for any other
/// caller; a canonicalization failure propagated verbatim; else exactly one
/// address field overwritten and a log naming the action and the
/// human-readable address.
pub open spec fn addr_change_post(
    pre: State,
    post: State,
    signer: Seq<u8>,
    addr: AddrInput,
    expected: State,
    action: Seq<char>,
    field: Seq<char>,
    r: Result<Response, Error>,
) -> bool {
    if signer != pre.owner@ {
        r == Err::<Response, Error>(Error::Unauthorized) && post == pre
    } else {
        match addr.canonical {
            Err(e) => r == Err::<Response, Error>(e) && post == pre,
            Ok(c) => {
                &&& post == expected
                &&& r matches Ok(resp) && resp_log(resp) =~= seq![
                    ("action"@, action),
                    (field, addr.human@),
                ]
            },
        }
    }
}

/// Redirects future releases to a new beneficiary. Owner only.
pub fn chanage_beneficiary(state: &mut State, env: &Env, beneficiary: AddrInput) -> (r: Result<
    Response,
    Error,
>)
    ensures
        addr_change_post(
            *old(state),
            *final(state),
            env.signer@,
            beneficiary,
            (match beneficiary.canonical {
                Ok(c) => State { beneficiary: c, ..*old(state) },
                Err(_) => *old(state),
            }),
            "chanage_beneficiary"@,
            "beneficiary"@,
            r,
        ),
{
    if !bytes_eq(env.signer.as_slice(), state.owner.as_slice()) {
        return Err(Error::Unauthorized);
    }
    let AddrInput { human, canonical } = beneficiary;
    match canonical {
        Err(e) => Err(e),
        Ok(c) => {
            state.beneficiary = c;
            let mut log: Vec<LogEntry> = Vec::new();
            log.push(
                LogEntry {
                    key: String::from_str("action"),
                    value: String::from_str("chanage_beneficiary"),
                },
            );
            log.push(LogEntry { key: String::from_str("beneficiary"), value: human });
            let resp = Response { log };
            proof {
                assert(resp_log(resp) =~= seq![
                    ("action"@, "chanage_beneficiary"@),
                    ("beneficiary"@, beneficiary.human@),
                ]);
            }
            Ok(resp)
        },
    }
}

/// Appoints a new oracle. Owner only.
pub fn chanage_oracle(state: &mut State, env: &Env, oracle: AddrInput) -> (r: Result<
    Response,
    Error,
>)
    ensures
        addr_change_post(
            *old(state),
            *final(state),
            env.signer@,
            oracle,
            (match oracle.canonical {
                Ok(c) => State { oracle: c, ..*old(state) },
                Err(_) => *old(state),
            }),
            "chanage_oracle"@,
            "oracle"@,
            r,
        ),
{
    if !bytes_eq(env.signer.as_slice(), state.owner.as_slice()) {
        return Err(Error::Unauthorized);
    }
    let AddrInput { human, canonical } = oracle;
    match canonical {
        Err(e) => Err(e),
        Ok(c) => {
            state.oracle = c;
            let mut log: Vec<LogEntry> = Vec::new();
            log.push(
                LogEntry {
                    key: String::from_str("action"),
                    value: String::from_str("chanage_oracle"),
                },
            );
            log.push(LogEntry { key: String::from_str("oracle"), value: human });
            let resp = Response { log };
            proof {
                assert(resp_log(resp) =~= seq![
                    ("action"@, "chanage_oracle"@),
                    ("oracle"@, oracle.human@),
                ]);
            }
            Ok(resp)
        },
    }
}

/// Hands the administrative role to a new owner. Owner only.
pub fn transfer_ownership(state: &mut State, env: &Env, owner: AddrInput) -> (r: Result<
    Response,
    Error,
>)
    ensures
        addr_change_post(
            *old(state),
            *final(state),
            env.signer@,
            owner,
            (match owner.canonical {
                Ok(c) => State { owner: c, ..*old(state) },
                Err(_) => *old(state),
            }),
            "transfer_ownership"@,
            "owner"@,
            r,
        ),
{
    if !bytes_eq(env.signer.as_slice(), state.owner.as_slice()) {
        return Err(Error::Unauthorized);
    }
    let AddrInput { human, canonical } = owner;
    match canonical {
        Err(e) => Err(e),
        Ok(c) => {
            state.owner = c;
            let mut log: Vec<LogEntry> = Vec::new();
            log.push(
                LogEntry {
                    key: String::from_str("action"),
                    value: String::from_str("transfer_ownership"),
                },
            );
            log.push(LogEntry { key: String::from_str("owner"), value: human });
            let resp = Response { log };
            proof {
                assert(resp_log(resp) =~= seq![
                    ("action"@, "transfer_ownership"@),
                    ("owner"@, owner.human@),
                ]);
            }
            Ok(resp)
        },
    }
}

/// The exact outcome of initialization: canonicalization failures propagate
/// in message order, an already-expired window is rejected, and otherwise
/// the created state starts with nothing released and the lock open.
pub open spec fn init_post(env: Env, msg: InitMsg, r: Result<State, Error>) -> bool {
    match msg.beneficiary.canonical {
        Err(e) => r == Err::<State, Error>(e),
        Ok(ben) => match msg.oracle.canonical {
            Err(e) => r == Err::<State, Error>(e),
            Ok(orc) => if (match msg.payout_end_height {
                Some(end) => env.height > end,
                None => false,
            }) {
                r == Err::<State, Error>(Error::ExpiredAtInit)
            } else {
                &&& r matches Ok(s)
                &&& s.region@ == msg.region@
                &&& s.beneficiary@ == ben@
                &&& s.owner@ == env.signer@
                &&& s.oracle@ == orc@
                &&& s.ecostate == msg.ecostate
                &&& s.total_tokens == msg.total_tokens
                &&& s.released_tokens == 0
                &&& s.payout_start_height == msg.payout_start_height
                &&& s.payout_end_height == msg.payout_end_height
                &&& !s.is_locked
            },
        },
    }
}

/// Creates the contract state. The caller becomes the owner; the window
/// must not already have expired at the current height.
pub fn init(env: &Env, msg: InitMsg) -> (r: Result<State, Error>)
    requires
        msg.total_tokens >= 0,
    ensures
        init_post(*env, msg, r),
        r matches Ok(s) ==> s.wf(),
{
    let InitMsg {
        region,
        beneficiary,
        oracle,
        ecostate,
        total_tokens,
        payout_start_height,
        payout_end_height,
    } = msg;
    let ben = match beneficiary.canonical {
        Ok(b) => b,
        Err(e) => {
            return Err(e);
        },
    };
    let orc = match oracle.canonical {
        Ok(o) => o,
        Err(e) => {
            return Err(e);
        },
    };
    let state = State {
        region,
        beneficiary: ben,
        owner: crate::state::clone_bytes(&env.signer),
        oracle: orc,
        ecostate,
        total_tokens,
        released_tokens: 0,
        payout_start_height,
        payout_end_height,
        is_locked: false,
    };
    if state.is_expired(env) {
        Err(Error::ExpiredAtInit)
    } else {
        Ok(state)
    }
}

/// Routes one handle operation to its handler.
pub fn handle(state: &mut State, store: &mut Ledger, env: &Env, msg: HandleMsg) -> (r: Result<
    Response,
    Error,
>)
    requires
        old(state).wf(),
        old(store).wf(),
        (msg matches HandleMsg::UpdateEcostate { ecostate } ==> step_fits(
            old(state).ecostate as int,
            ecostate as int,
        ) && credit_fits(*old(state), old(store)@, ecostate as int)),
    ensures
        final(state).wf(),
        final(store).wf(),
        match msg {
            HandleMsg::UpdateEcostate { ecostate } => update_post(
                *old(state),
                *final(state),
                old(store)@,
                final(store)@,
                env.height,
                env.signer@,
                ecostate,
                r,
            ),
            HandleMsg::Lock {} => lock_post(
                *old(state),
                *final(state),
                env.signer@,
                true,
                "lock"@,
                r,
            ) && final(store)@ == old(store)@,
            HandleMsg::UnLock {} => lock_post(
                *old(state),
                *final(state),
                env.signer@,
                false,
                "unlock"@,
                r,
            ) && final(store)@ == old(store)@,
            HandleMsg::ChangeBeneficiary { beneficiary } => addr_change_post(
                *old(state),
                *final(state),
                env.signer@,
                beneficiary,
                (match beneficiary.canonical {
                    Ok(c) => State { beneficiary: c, ..*old(state) },
                    Err(_) => *old(state),
                }),
                "chanage_beneficiary"@,
                "beneficiary"@,
                r,
            ) && final(store)@ == old(store)@,
            HandleMsg::ChangeOracle { oracle } => addr_change_post(
                *old(state),
                *final(state),
                env.signer@,
                oracle,
                (match oracle.canonical {
                    Ok(c) => State { oracle: c, ..*old(state) },
                    Err(_) => *old(state),
                }),
                "chanage_oracle"@,
                "oracle"@,
                r,
            ) && final(store)@ == old(store)@,
            HandleMsg::TransferOwnership { owner } => addr_change_post(
                *old(state),
                *final(state),
                env.signer@,
                owner,
                (match owner.canonical {
                    Ok(c) => State { owner: c, ..*old(state) },
                    Err(_) => *old(state),
                }),
                "transfer_ownership"@,
                "owner"@,
                r,
            ) && final(store)@ == old(store)@,
        },
{
    match msg {
        HandleMsg::UpdateEcostate { ecostate } => update_ecostate(state, store, env, ecostate),
        HandleMsg::Lock {} => lock(state, env),
        HandleMsg::UnLock {} => unlock(state, env),
        HandleMsg::ChangeBeneficiary { beneficiary } => chanage_beneficiary(
            state,
            env,
            beneficiary,
        ),
        HandleMsg::ChangeOracle { oracle } => chanage_oracle(state, env, oracle),
        HandleMsg::TransferOwnership { owner } => transfer_ownership(state, env, owner),
    }
}

/// The exact outcome of a query: a state query answers a full snapshot; a
/// balance query canonicalizes the address, rejects corrupted stored data,
/// and renders the recorded balance (zero when absent) in decimal.
pub open spec fn query_post(
    s: State,
    m: Map<Seq<u8>, Seq<u8>>,
    msg: QueryMsg,
    r: Result<QueryAnswer, Error>,
) -> bool {
    match msg {
        QueryMsg::State {} => r matches Ok(a) && (a matches QueryAnswer::State(snap)
            && same_state(snap, s)),
        QueryMsg::Balance { address } => match address.canonical {
            Err(e) => r == Err::<QueryAnswer, Error>(e),
            Ok(c) => if !stored_ok(m, c@) {
                r == Err::<QueryAnswer, Error>(Error::CorruptedData)
            } else {
                r matches Ok(a) && (a matches QueryAnswer::Balance(b) && b.balance@ == dec_rep(
                    stored_val(m, c@),
                ))
            },
        },
    }
}

/// Answers a read-only query against the current state and ledger.
pub fn query(state: &State, store: &Ledger, msg: QueryMsg) -> (r: Result<QueryAnswer, Error>)
    requires
        store.wf(),
    ensures
        query_post(*state, store@, msg, r),
{
    match msg {
        QueryMsg::State {} => Ok(QueryAnswer::State(state.snapshot())),
        QueryMsg::Balance { address } => {
            let c = match address.canonical {
                Ok(c) => c,
                Err(e) => {
                    return Err(e);
                },
            };
            let balance = match read_balance(store, &c) {
                Ok(b) => b,
                Err(e) => {
                    return Err(e);
                },
            };
            Ok(QueryAnswer::Balance(BalanceResponse { balance: u128_to_dec(balance) }))
        },
    }
}

/// The release one ecostate report would credit against the current state.
pub fn release_amount(state: &State, new_ecostate: i64) -> (r: i64)
    requires
        state.wf(),
        step_fits(state.ecostate as int, new_ecostate as int),
    ensures
        r as int == clamped_release(
            state.ecostate as int,
            new_ecostate as int,
            state.total_tokens as int,
            state.released_tokens as int,
        ),
{
    let change_amount: i64 = new_ecostate - state.ecostate;
    let mut release_tokens: i64;
    if change_amount < 0 {
        release_tokens = 0;
    } else if change_amount < 100 {
        if 5000 < new_ecostate {
            let above50: i64 = new_ecostate - 5000;
            release_tokens = (above50 * 2 + 50) / 100;
        } else {
            release_tokens = 0;
        }
    } else {
        release_tokens = change_amount;
    }
    if release_tokens > 0 {
        let remain_tokens = state.total_tokens - state.released_tokens;
        if release_tokens > remain_tokens {
            release_tokens = remain_tokens;
        }
    }
    release_tokens
}

/// Whether the 64-bit arithmetic of one ecostate report stays in range, so
/// that the report may be handed to the update handler.
pub fn step_in_range(state: &State, new_ecostate: i64) -> (r: bool)
    ensures
        r == step_fits(state.ecostate as int, new_ecostate as int),
{
    let change: i128 = new_ecostate as i128 - state.ecostate as i128;
    if change < i64::MIN as i128 || change > i64::MAX as i128 {
        return false;
    }
    if 0 <= change && change < 100 && new_ecostate > 5000 {
        let bonus: i128 = (new_ecostate as i128 - 5000) * 2 + 50;
        bonus <= i64::MAX as i128
    } else {
        true
    }
}

} // verus!
