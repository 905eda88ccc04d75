use eco_release::contract::{
    chanage_beneficiary, chanage_oracle, handle, init, lock, query, release_amount,
    step_in_range, transfer_ownership, unlock, update_ecostate,
};
use eco_release::errors::{Error, ErrorKind};
use eco_release::ledger::{read_balance, Ledger};
use eco_release::msg::{AddrInput, HandleMsg, InitMsg, QueryAnswer, QueryMsg};
use eco_release::state::{Env, State};

fn addr(bytes: &[u8]) -> Vec<u8> {
    bytes.to_vec()
}

fn base_state() -> State {
    State {
        region: String::from("r1"),
        beneficiary: addr(b"BEN"),
        owner: addr(b"OWN"),
        oracle: addr(b"ORC"),
        ecostate: 5000,
        total_tokens: 1000,
        released_tokens: 0,
        payout_start_height: Some(10),
        payout_end_height: Some(20),
        is_locked: false,
    }
}

fn env(height: i64, signer: &[u8]) -> Env {
    Env { height, signer: signer.to_vec() }
}

fn good_addr(name: &str, canon: &[u8]) -> AddrInput {
    AddrInput { human: String::from(name), canonical: Ok(canon.to_vec()) }
}

#[test]
fn small_rise_above_threshold_releases_rounded_bonus() {
    let mut state = base_state();
    let mut store = Ledger::new();
    let resp = update_ecostate(&mut state, &mut store, &env(15, b"ORC"), 5050).unwrap();
    assert_eq!(state.ecostate, 5050);
    assert_eq!(state.released_tokens, 1);
    assert_eq!(read_balance(&store, &addr(b"BEN")), Ok(1));
    let pairs: Vec<(String, String)> =
        resp.log.iter().map(|e| (e.key.clone(), e.value.clone())).collect();
    assert_eq!(
        pairs,
        vec![
            (String::from("action"), String::from("update_ecostate")),
            (String::from("old_ecostate"), String::from("5000")),
            (String::from("new_ecostate"), String::from("5050")),
            (String::from("change_ecostate"), String::from("50")),
            (String::from("release_tokens"), String::from("1")),
        ]
    );
}

#[test]
fn small_rise_below_threshold_releases_nothing() {
    let mut state = base_state();
    state.ecostate = 4000;
    let mut store = Ledger::new();
    update_ecostate(&mut state, &mut store, &env(15, b"ORC"), 4050).unwrap();
    assert_eq!(state.ecostate, 4050);
    assert_eq!(state.released_tokens, 0);
    assert_eq!(read_balance(&store, &addr(b"BEN")), Ok(0));
}

#[test]
fn large_rise_releases_one_to_one() {
    let mut state = base_state();
    let mut store = Ledger::new();
    update_ecostate(&mut state, &mut store, &env(15, b"ORC"), 5150).unwrap();
    assert_eq!(state.released_tokens, 150);
    assert_eq!(read_balance(&store, &addr(b"BEN")), Ok(150));
}

#[test]
fn drop_releases_nothing_but_records_ecostate() {
    let mut state = base_state();
    let mut store = Ledger::new();
    update_ecostate(&mut state, &mut store, &env(15, b"ORC"), 4900).unwrap();
    assert_eq!(state.ecostate, 4900);
    assert_eq!(state.released_tokens, 0);
    assert_eq!(read_balance(&store, &addr(b"BEN")), Ok(0));
}

#[test]
fn tiny_rise_above_threshold_rounds_to_zero() {
    let mut state = base_state();
    let mut store = Ledger::new();
    update_ecostate(&mut state, &mut store, &env(15, b"ORC"), 5001).unwrap();
    assert_eq!(state.released_tokens, 0);
}

#[test]
fn balances_accumulate_across_updates() {
    let mut state = base_state();
    let mut store = Ledger::new();
    update_ecostate(&mut state, &mut store, &env(15, b"ORC"), 5150).unwrap();
    // change 1, new ecostate 151 above the threshold: (151 * 2 + 50) / 100 = 3
    update_ecostate(&mut state, &mut store, &env(16, b"ORC"), 5151).unwrap();
    assert_eq!(state.released_tokens, 153);
    assert_eq!(read_balance(&store, &addr(b"BEN")), Ok(153));
}

#[test]
fn release_clamped_to_remaining_supply() {
    let mut state = base_state();
    state.released_tokens = 990;
    let mut store = Ledger::new();
    assert_eq!(release_amount(&state, 5150), 10);
    update_ecostate(&mut state, &mut store, &env(15, b"ORC"), 5150).unwrap();
    assert_eq!(state.released_tokens, 1000);
    assert_eq!(state.total_tokens, 1000);
    assert_eq!(read_balance(&store, &addr(b"BEN")), Ok(10));
}

#[test]
fn done_contract_rejects_updates_for_everyone() {
    let mut state = base_state();
    state.released_tokens = 1000;
    let mut store = Ledger::new();
    let r = update_ecostate(&mut state, &mut store, &env(15, b"ORC"), 5200);
    assert_eq!(r, Err(Error::Done));
    assert_eq!(Error::Done.kind(), ErrorKind::BusinessState);
    let r2 = update_ecostate(&mut state, &mut store, &env(15, b"OWN"), 5200);
    assert_eq!(r2, Err(Error::Done));
    assert_eq!(state.ecostate, 5000);
}

#[test]
fn locked_contract_rejects_updates_even_from_oracle() {
    let mut state = base_state();
    state.is_locked = true;
    let mut store = Ledger::new();
    let r = update_ecostate(&mut state, &mut store, &env(15, b"ORC"), 5100);
    assert_eq!(r, Err(Error::Locked));
    assert_eq!(Error::Locked.kind(), ErrorKind::BusinessState);
    assert_eq!(state.ecostate, 5000);
    assert_eq!(state.released_tokens, 0);
}

#[test]
fn admin_operations_still_work_while_locked() {
    let mut state = base_state();
    state.is_locked = true;
    let resp = chanage_beneficiary(&mut state, &env(15, b"OWN"), good_addr("bob", b"BOB"));
    assert!(resp.is_ok());
    assert_eq!(state.beneficiary, addr(b"BOB"));
    let resp = unlock(&mut state, &env(15, b"OWN")).unwrap();
    assert!(!state.is_locked);
    assert_eq!(resp.log[0].key, "action");
    assert_eq!(resp.log[0].value, "unlock");
}

#[test]
fn lock_and_unlock_flip_the_flag() {
    let mut state = base_state();
    let resp = lock(&mut state, &env(15, b"OWN")).unwrap();
    assert!(state.is_locked);
    assert_eq!(resp.log[0].value, "lock");
    unlock(&mut state, &env(15, b"OWN")).unwrap();
    assert!(!state.is_locked);
}

#[test]
fn update_rejected_before_window_opens() {
    let mut state = base_state();
    let mut store = Ledger::new();
    let r = update_ecostate(&mut state, &mut store, &env(9, b"ORC"), 5100);
    assert_eq!(r, Err(Error::NotStarted));
}

#[test]
fn update_rejected_without_start_height() {
    let mut state = base_state();
    state.payout_start_height = None;
    let mut store = Ledger::new();
    let r = update_ecostate(&mut state, &mut store, &env(1_000_000, b"ORC"), 5100);
    assert_eq!(r, Err(Error::NotStarted));
}

#[test]
fn update_rejected_after_window_closes() {
    let mut state = base_state();
    let mut store = Ledger::new();
    let r = update_ecostate(&mut state, &mut store, &env(21, b"ORC"), 5100);
    assert_eq!(r, Err(Error::Expired));
}

#[test]
fn update_accepted_at_end_height_boundary() {
    let mut state = base_state();
    let mut store = Ledger::new();
    let r = update_ecostate(&mut state, &mut store, &env(20, b"ORC"), 5100);
    assert!(r.is_ok());
    assert_eq!(state.released_tokens, 100);
}

#[test]
fn non_oracle_update_is_unauthorized() {
    let mut state = base_state();
    let mut store = Ledger::new();
    let r = update_ecostate(&mut state, &mut store, &env(15, b"OWN"), 5100);
    assert_eq!(r, Err(Error::Unauthorized));
    assert_eq!(Error::Unauthorized.kind(), ErrorKind::Authorization);
    assert_eq!(state.ecostate, 5000);
}

#[test]
fn non_owner_admin_calls_are_unauthorized() {
    let mut state = base_state();
    let snapshot = (
        state.beneficiary.clone(),
        state.oracle.clone(),
        state.owner.clone(),
        state.is_locked,
    );
    assert_eq!(lock(&mut state, &env(15, b"EVE")), Err(Error::Unauthorized));
    assert_eq!(unlock(&mut state, &env(15, b"EVE")), Err(Error::Unauthorized));
    assert_eq!(
        chanage_beneficiary(&mut state, &env(15, b"EVE"), good_addr("eve", b"EVE")),
        Err(Error::Unauthorized)
    );
    assert_eq!(
        chanage_oracle(&mut state, &env(15, b"ORC"), good_addr("eve", b"EVE")),
        Err(Error::Unauthorized)
    );
    assert_eq!(
        transfer_ownership(&mut state, &env(15, b"BEN"), good_addr("eve", b"EVE")),
        Err(Error::Unauthorized)
    );
    assert_eq!(
        snapshot,
        (
            state.beneficiary.clone(),
            state.oracle.clone(),
            state.owner.clone(),
            state.is_locked,
        )
    );
}

#[test]
fn address_changes_overwrite_one_field_and_log_it() {
    let mut state = base_state();
    let resp = chanage_oracle(&mut state, &env(15, b"OWN"), good_addr("carol", b"CAROL")).unwrap();
    assert_eq!(state.oracle, addr(b"CAROL"));
    assert_eq!(state.beneficiary, addr(b"BEN"));
    assert_eq!(resp.log[0].value, "chanage_oracle");
    assert_eq!(resp.log[1].key, "oracle");
    assert_eq!(resp.log[1].value, "carol");
    let resp = transfer_ownership(&mut state, &env(15, b"OWN"), good_addr("dave", b"DAVE"))
        .unwrap();
    assert_eq!(state.owner, addr(b"DAVE"));
    assert_eq!(resp.log[0].value, "transfer_ownership");
    // the old owner has handed the role over
    assert_eq!(lock(&mut state, &env(15, b"OWN")), Err(Error::Unauthorized));
    assert!(lock(&mut state, &env(15, b"DAVE")).is_ok());
}

#[test]
fn canonicalization_failure_propagates() {
    let mut state = base_state();
    let bad = AddrInput {
        human: String::from("???"),
        canonical: Err(Error::AddrError { msg: String::from("invalid address") }),
    };
    let r = chanage_beneficiary(&mut state, &env(15, b"OWN"), bad);
    assert_eq!(r, Err(Error::AddrError { msg: String::from("invalid address") }));
    assert_eq!(state.beneficiary, addr(b"BEN"));
}

#[test]
fn init_rejects_expired_window() {
    let msg = InitMsg {
        region: String::from("r1"),
        beneficiary: good_addr("ben", b"BEN"),
        oracle: good_addr("orc", b"ORC"),
        ecostate: 5000,
        total_tokens: 1000,
        payout_start_height: Some(10),
        payout_end_height: Some(20),
    };
    let r = init(&env(30, b"OWN"), msg);
    assert_eq!(r, Err(Error::ExpiredAtInit));
    assert_eq!(Error::ExpiredAtInit.kind(), ErrorKind::Validation);
}

#[test]
fn init_creates_fresh_state() {
    let msg = InitMsg {
        region: String::from("r1"),
        beneficiary: good_addr("ben", b"BEN"),
        oracle: good_addr("orc", b"ORC"),
        ecostate: 4200,
        total_tokens: 1000,
        payout_start_height: Some(10),
        payout_end_height: None,
    };
    let s = init(&env(30, b"OWN"), msg).unwrap();
    assert_eq!(s.region, "r1");
    assert_eq!(s.owner, addr(b"OWN"));
    assert_eq!(s.beneficiary, addr(b"BEN"));
    assert_eq!(s.oracle, addr(b"ORC"));
    assert_eq!(s.ecostate, 4200);
    assert_eq!(s.total_tokens, 1000);
    assert_eq!(s.released_tokens, 0);
    assert!(!s.is_locked);
}

#[test]
fn init_propagates_canonicalization_failure() {
    let msg = InitMsg {
        region: String::from("r1"),
        beneficiary: AddrInput {
            human: String::from("???"),
            canonical: Err(Error::AddrError { msg: String::from("bad beneficiary") }),
        },
        oracle: good_addr("orc", b"ORC"),
        ecostate: 5000,
        total_tokens: 1000,
        payout_start_height: Some(10),
        payout_end_height: Some(20),
    };
    let r = init(&env(5, b"OWN"), msg);
    assert_eq!(r, Err(Error::AddrError { msg: String::from("bad beneficiary") }));
}

#[test]
fn handle_routes_every_operation() {
    let mut state = base_state();
    let mut store = Ledger::new();
    let r = handle(
        &mut state,
        &mut store,
        &env(15, b"ORC"),
        HandleMsg::UpdateEcostate { ecostate: 5150 },
    );
    assert!(r.is_ok());
    assert_eq!(state.released_tokens, 150);
    handle(&mut state, &mut store, &env(15, b"OWN"), HandleMsg::Lock {}).unwrap();
    assert!(state.is_locked);
    handle(&mut state, &mut store, &env(15, b"OWN"), HandleMsg::UnLock {}).unwrap();
    assert!(!state.is_locked);
    handle(
        &mut state,
        &mut store,
        &env(15, b"OWN"),
        HandleMsg::ChangeBeneficiary { beneficiary: good_addr("bob", b"BOB") },
    )
    .unwrap();
    assert_eq!(state.beneficiary, addr(b"BOB"));
    handle(
        &mut state,
        &mut store,
        &env(15, b"OWN"),
        HandleMsg::ChangeOracle { oracle: good_addr("carol", b"CAROL") },
    )
    .unwrap();
    assert_eq!(state.oracle, addr(b"CAROL"));
    handle(
        &mut state,
        &mut store,
        &env(15, b"OWN"),
        HandleMsg::TransferOwnership { owner: good_addr("dave", b"DAVE") },
    )
    .unwrap();
    assert_eq!(state.owner, addr(b"DAVE"));
}

#[test]
fn balance_query_round_trip() {
    let mut state = base_state();
    let mut store = Ledger::new();
    // no key before the first credit: reads as zero
    let r = query(&state, &store, QueryMsg::Balance { address: good_addr("ben", b"BEN") });
    match r.unwrap() {
        QueryAnswer::Balance(b) => assert_eq!(b.balance, "0"),
        _ => panic!("expected a balance answer"),
    }
    update_ecostate(&mut state, &mut store, &env(15, b"ORC"), 5150).unwrap();
    let r = query(&state, &store, QueryMsg::Balance { address: good_addr("ben", b"BEN") });
    match r.unwrap() {
        QueryAnswer::Balance(b) => assert_eq!(b.balance, "150"),
        _ => panic!("expected a balance answer"),
    }
}

#[test]
fn state_query_returns_snapshot() {
    let state = base_state();
    let store = Ledger::new();
    match query(&state, &store, QueryMsg::State {}).unwrap() {
        QueryAnswer::State(s) => {
            assert_eq!(s.region, "r1");
            assert_eq!(s.beneficiary, addr(b"BEN"));
            assert_eq!(s.owner, addr(b"OWN"));
            assert_eq!(s.oracle, addr(b"ORC"));
            assert_eq!(s.ecostate, 5000);
            assert_eq!(s.total_tokens, 1000);
            assert_eq!(s.released_tokens, 0);
            assert_eq!(s.payout_start_height, Some(10));
            assert_eq!(s.payout_end_height, Some(20));
            assert!(!s.is_locked);
        },
        _ => panic!("expected a state answer"),
    }
}

#[test]
fn corrupted_balance_entry_fails_reads() {
    let mut state = base_state();
    let mut store = Ledger::new();
    store.set(b"BEN", vec![1, 2, 3]);
    let r = query(&state, &store, QueryMsg::Balance { address: good_addr("ben", b"BEN") });
    assert_eq!(r, Err(Error::CorruptedData));
    assert_eq!(read_balance(&store, &addr(b"BEN")), Err(Error::CorruptedData));
    // an update that must credit the beneficiary refuses the corrupt entry too
    let r = update_ecostate(&mut state, &mut store, &env(15, b"ORC"), 5150);
    assert_eq!(r, Err(Error::CorruptedData));
    assert_eq!(state.released_tokens, 0);
    assert_eq!(state.ecostate, 5000);
}

#[test]
fn error_messages_are_verbatim() {
    assert_eq!(Error::NotStarted.message(), "The contract has not been started.");
    assert_eq!(Error::Expired.message(), "The contract has expired.");
    assert_eq!(Error::Locked.message(), "The contract is locked.");
    assert_eq!(Error::Done.message(), "The contract status is DONE.");
    assert_eq!(Error::ExpiredAtInit.message(), "creating expired contract");
    assert_eq!(
        Error::CorruptedData.message(),
        "Corrupted data found. 16 byte expected."
    );
    assert_eq!(
        Error::AddrError { msg: String::from("oops") }.message(),
        "oops"
    );
}

#[test]
fn step_range_check_matches_handler_precondition() {
    let state = base_state();
    assert!(step_in_range(&state, 5150));
    assert!(step_in_range(&state, i64::MIN + 5000));
    let mut far = base_state();
    far.ecostate = -10;
    assert!(!step_in_range(&far, i64::MAX));
}
