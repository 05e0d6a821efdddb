use transfer::contract::{balance, execute, instantiate, owner, query};
use transfer::contract::{send_coins as deposit_op, withdraw_coins as withdraw_op};
use transfer::error::ContractError;
use transfer::ledger::Escrow;
use transfer::msg::{ExecuteMsg, InstantiateMsg, QueryAnswer, QueryMsg};
use transfer::state::State;

fn fresh(owner_name: &str, current_height: u64, expiration: u64) -> State {
    instantiate(
        owner_name.to_string(),
        current_height,
        InstantiateMsg { expiration },
    )
    .unwrap()
}

#[test]
fn proper_initialization() {
    let state = fresh("account", 12345, 100000);

    let res = owner(&state);
    assert_eq!(res.owner, "account".to_string());

    // the creator is not a beneficiary, so it reads a zero balance
    let res = balance(&state, "account".to_string());
    assert_eq!(res.balance, 0);
    assert_eq!(state.expiration, 100000);
    assert_eq!(state.beneficiary_1, "".to_string());
    assert_eq!(state.beneficiary_2, "".to_string());
    assert_eq!(state.beneficiary1_balance, 0);
    assert_eq!(state.beneficiary2_balance, 0);
    assert_eq!(state.sent_coins, 0);
    assert_eq!(state.source, "".to_string());
}

#[test]
fn send_coins() {
    let mut state = fresh("creator", 12345, 100000);

    let res = execute(
        &mut state,
        "creator".to_string(),
        ExecuteMsg::SendCoins {
            sentCoins: 2,
            beneficiary1: "creator".to_string(),
            beneficiary2: "creator".to_string(),
        },
    );
    assert!(res.is_ok());

    // 2 split evenly: each slot was credited 1
    let res = balance(&state, "creator".to_string());
    assert_eq!(res.balance, 1);
    assert_eq!(state.source, "creator".to_string());
    assert_eq!(state.sent_coins, 2);
}

#[test]
fn withdraw_coins() {
    let mut state = fresh("creator", 12345, 100000);

    let res = execute(
        &mut state,
        "creator".to_string(),
        ExecuteMsg::SendCoins {
            sentCoins: 2,
            beneficiary1: "creator".to_string(),
            beneficiary2: "token".to_string(),
        },
    );
    assert!(res.is_ok());

    // anyone else must not withdraw from the creator's slot
    let res = execute(
        &mut state,
        "anyone".to_string(),
        ExecuteMsg::WithdrawCoins {
            fromAccount: "creator".to_string(),
            toWithdraw: 1,
        },
    );
    match res {
        Err(ContractError::Unauthorized) => {}
        _ => panic!("Must return unauthorized error"),
    }

    // the beneficiary itself can
    let res = execute(
        &mut state,
        "creator".to_string(),
        ExecuteMsg::WithdrawCoins {
            fromAccount: "creator".to_string(),
            toWithdraw: 1,
        },
    );
    assert!(res.is_ok());
    let res = balance(&state, "creator".to_string());
    assert_eq!(res.balance, 0);
}

#[test]
fn owner_never_changes() {
    let mut state = fresh("alice", 0, 100);
    deposit_op(
        &mut state,
        "mallory".to_string(),
        40,
        "bob".to_string(),
        "carol".to_string(),
    )
    .unwrap();
    assert_eq!(owner(&state).owner, "alice".to_string());
    withdraw_op(&mut state, "bob".to_string(), "bob".to_string(), 5).unwrap();
    assert_eq!(owner(&state).owner, "alice".to_string());
    deposit_op(
        &mut state,
        "dave".to_string(),
        7,
        "erin".to_string(),
        "frank".to_string(),
    )
    .unwrap();
    assert_eq!(owner(&state).owner, "alice".to_string());
}

#[test]
fn even_amount_splits_exactly() {
    let mut state = fresh("alice", 0, 100);
    deposit_op(
        &mut state,
        "alice".to_string(),
        100,
        "bob".to_string(),
        "carol".to_string(),
    )
    .unwrap();
    assert_eq!(balance(&state, "bob".to_string()).balance, 50);
    assert_eq!(balance(&state, "carol".to_string()).balance, 50);
}

#[test]
fn odd_amount_drops_one_unit() {
    let mut state = fresh("alice", 0, 100);
    deposit_op(
        &mut state,
        "alice".to_string(),
        101,
        "bob".to_string(),
        "carol".to_string(),
    )
    .unwrap();
    // 101 is split as 50 + 50; the odd unit is credited to neither side
    assert_eq!(balance(&state, "bob".to_string()).balance, 50);
    assert_eq!(balance(&state, "carol".to_string()).balance, 50);
}

#[test]
fn negative_amount_halves_toward_zero() {
    let mut state = fresh("alice", 0, 100);
    deposit_op(
        &mut state,
        "alice".to_string(),
        -5,
        "bob".to_string(),
        "carol".to_string(),
    )
    .unwrap();
    assert_eq!(balance(&state, "bob".to_string()).balance, -2);
    assert_eq!(balance(&state, "carol".to_string()).balance, -2);
}

#[test]
fn withdrawal_needs_matching_caller() {
    let mut state = fresh("alice", 0, 100);
    deposit_op(
        &mut state,
        "alice".to_string(),
        100,
        "bob".to_string(),
        "carol".to_string(),
    )
    .unwrap();

    // caller differs from the named account: rejected regardless of balance
    let res = withdraw_op(&mut state, "mallory".to_string(), "bob".to_string(), 5);
    assert_eq!(res, Err(ContractError::Unauthorized));
    assert_eq!(balance(&state, "bob".to_string()).balance, 50);

    // the named account matches neither slot
    let res = withdraw_op(&mut state, "dave".to_string(), "dave".to_string(), 5);
    assert_eq!(res, Err(ContractError::Unauthorized));
    assert_eq!(balance(&state, "bob".to_string()).balance, 50);
    assert_eq!(balance(&state, "carol".to_string()).balance, 50);
}

#[test]
fn withdrawal_leaves_other_slot_alone() {
    let mut state = fresh("alice", 0, 100);
    deposit_op(
        &mut state,
        "alice".to_string(),
        100,
        "bob".to_string(),
        "carol".to_string(),
    )
    .unwrap();

    withdraw_op(&mut state, "bob".to_string(), "bob".to_string(), 30).unwrap();
    assert_eq!(balance(&state, "bob".to_string()).balance, 20);
    assert_eq!(balance(&state, "carol".to_string()).balance, 50);

    withdraw_op(&mut state, "carol".to_string(), "carol".to_string(), 10).unwrap();
    assert_eq!(balance(&state, "bob".to_string()).balance, 20);
    assert_eq!(balance(&state, "carol".to_string()).balance, 40);
}

#[test]
fn overdraft_goes_negative_then_closes() {
    let mut state = fresh("alice", 0, 100);
    deposit_op(
        &mut state,
        "alice".to_string(),
        40,
        "bob".to_string(),
        "carol".to_string(),
    )
    .unwrap();

    // no upper-bound check: the balance may go negative
    withdraw_op(&mut state, "bob".to_string(), "bob".to_string(), 30).unwrap();
    assert_eq!(balance(&state, "bob".to_string()).balance, -10);

    // the next attempt against the non-positive slot closes it
    let res = withdraw_op(&mut state, "bob".to_string(), "bob".to_string(), 1);
    assert_eq!(res, Err(ContractError::WithdrawalLimitReached));
    assert_eq!(state.beneficiary_1, "".to_string());
}

#[test]
fn exhausted_slot_is_marked_closed() {
    let mut state = fresh("alice", 0, 100);
    deposit_op(
        &mut state,
        "alice".to_string(),
        40,
        "bob".to_string(),
        "carol".to_string(),
    )
    .unwrap();

    withdraw_op(&mut state, "bob".to_string(), "bob".to_string(), 20).unwrap();
    assert_eq!(balance(&state, "bob".to_string()).balance, 0);

    // balance is no longer strictly positive: the attempt fails and clears
    // the slot's identity
    let res = withdraw_op(&mut state, "bob".to_string(), "bob".to_string(), 1);
    assert_eq!(res, Err(ContractError::WithdrawalLimitReached));
    assert_eq!(state.beneficiary_1, "".to_string());

    // the original identity no longer matches anything
    let res = withdraw_op(&mut state, "bob".to_string(), "bob".to_string(), 1);
    assert_eq!(res, Err(ContractError::Unauthorized));

    // the second slot is untouched throughout
    assert_eq!(balance(&state, "carol".to_string()).balance, 20);
}

#[test]
fn creation_guard() {
    let err = instantiate(
        "alice".to_string(),
        100,
        InstantiateMsg { expiration: 100 },
    );
    assert_eq!(err.err(), Some(ContractError::InvalidExpiration));

    let err = instantiate("alice".to_string(), 100, InstantiateMsg { expiration: 99 });
    assert_eq!(err.err(), Some(ContractError::InvalidExpiration));

    let ok = instantiate(
        "alice".to_string(),
        100,
        InstantiateMsg { expiration: 101 },
    );
    assert!(ok.is_ok());
}

#[test]
fn queries_are_idempotent() {
    let mut state = fresh("alice", 0, 100);
    deposit_op(
        &mut state,
        "alice".to_string(),
        100,
        "bob".to_string(),
        "carol".to_string(),
    )
    .unwrap();

    let o1 = query(&state, QueryMsg::GetOwner {});
    let o2 = query(&state, QueryMsg::GetOwner {});
    assert_eq!(o1, o2);

    let b1 = query(
        &state,
        QueryMsg::GetBalance {
            account: "bob".to_string(),
        },
    );
    let b2 = query(
        &state,
        QueryMsg::GetBalance {
            account: "bob".to_string(),
        },
    );
    assert_eq!(b1, b2);
    assert_eq!(
        b1,
        QueryAnswer::Balance(transfer::msg::BalanceResponse { balance: 50 })
    );
}

#[test]
fn unknown_account_reads_zero() {
    let mut state = fresh("alice", 0, 100);
    deposit_op(
        &mut state,
        "alice".to_string(),
        100,
        "bob".to_string(),
        "carol".to_string(),
    )
    .unwrap();
    assert_eq!(balance(&state, "nobody".to_string()).balance, 0);
    assert_eq!(balance(&state, "alice".to_string()).balance, 0);
}

#[test]
fn deposit_overwrites_beneficiaries_and_keeps_balances() {
    let mut state = fresh("alice", 0, 100);
    deposit_op(
        &mut state,
        "alice".to_string(),
        100,
        "bob".to_string(),
        "carol".to_string(),
    )
    .unwrap();
    // a later deposit re-declares the pair; slot balances accumulate
    deposit_op(
        &mut state,
        "dave".to_string(),
        10,
        "erin".to_string(),
        "frank".to_string(),
    )
    .unwrap();
    assert_eq!(balance(&state, "erin".to_string()).balance, 55);
    assert_eq!(balance(&state, "frank".to_string()).balance, 55);
    assert_eq!(balance(&state, "bob".to_string()).balance, 0);
    assert_eq!(state.source, "dave".to_string());
    assert_eq!(state.sent_coins, 10);
}

#[test]
fn ledger_lifecycle() {
    let mut e = Escrow::new();

    // nothing exists yet
    let res = e.query(QueryMsg::GetOwner {});
    assert_eq!(res, Err(ContractError::NotFound));
    let res = e.execute(
        "alice".to_string(),
        ExecuteMsg::SendCoins {
            sentCoins: 2,
            beneficiary1: "bob".to_string(),
            beneficiary2: "carol".to_string(),
        },
    );
    assert_eq!(res, Err(ContractError::NotFound));

    // creation, once
    let res = e.create("alice".to_string(), 100, InstantiateMsg { expiration: 101 });
    assert_eq!(res, Ok(()));
    let res = e.create("bob".to_string(), 100, InstantiateMsg { expiration: 200 });
    assert_eq!(res, Err(ContractError::AlreadyInitialized));

    // the record answers queries through the ledger
    let res = e.query(QueryMsg::GetOwner {});
    match res {
        Ok(QueryAnswer::Owner(o)) => assert_eq!(o.owner, "alice".to_string()),
        _ => panic!("owner query must succeed"),
    }
}

#[test]
fn end_to_end() {
    let mut e = Escrow::new();
    e.create("alice".to_string(), 0, InstantiateMsg { expiration: 100 })
        .unwrap();

    e.execute(
        "alice".to_string(),
        ExecuteMsg::SendCoins {
            sentCoins: 100,
            beneficiary1: "bob".to_string(),
            beneficiary2: "carol".to_string(),
        },
    )
    .unwrap();
    let q = e.query(QueryMsg::GetBalance {
        account: "bob".to_string(),
    });
    assert_eq!(
        q,
        Ok(QueryAnswer::Balance(transfer::msg::BalanceResponse {
            balance: 50
        }))
    );
    let q = e.query(QueryMsg::GetBalance {
        account: "carol".to_string(),
    });
    assert_eq!(
        q,
        Ok(QueryAnswer::Balance(transfer::msg::BalanceResponse {
            balance: 50
        }))
    );

    let w = e.execute(
        "bob".to_string(),
        ExecuteMsg::WithdrawCoins {
            fromAccount: "bob".to_string(),
            toWithdraw: 30,
        },
    );
    assert_eq!(w, Ok(()));
    let q = e.query(QueryMsg::GetBalance {
        account: "bob".to_string(),
    });
    assert_eq!(
        q,
        Ok(QueryAnswer::Balance(transfer::msg::BalanceResponse {
            balance: 20
        }))
    );

    let w = e.execute(
        "mallory".to_string(),
        ExecuteMsg::WithdrawCoins {
            fromAccount: "bob".to_string(),
            toWithdraw: 5,
        },
    );
    assert_eq!(w, Err(ContractError::Unauthorized));

    let w = e.execute(
        "bob".to_string(),
        ExecuteMsg::WithdrawCoins {
            fromAccount: "bob".to_string(),
            toWithdraw: 20,
        },
    );
    assert_eq!(w, Ok(()));

    let w = e.execute(
        "bob".to_string(),
        ExecuteMsg::WithdrawCoins {
            fromAccount: "bob".to_string(),
            toWithdraw: 1,
        },
    );
    assert_eq!(w, Err(ContractError::WithdrawalLimitReached));

    let w = e.execute(
        "bob".to_string(),
        ExecuteMsg::WithdrawCoins {
            fromAccount: "bob".to_string(),
            toWithdraw: 1,
        },
    );
    assert_eq!(w, Err(ContractError::Unauthorized));

    // the owner and the untouched slot survived it all
    let q = e.query(QueryMsg::GetOwner {});
    match q {
        Ok(QueryAnswer::Owner(o)) => assert_eq!(o.owner, "alice".to_string()),
        _ => panic!("owner query must succeed"),
    }
    let q = e.query(QueryMsg::GetBalance {
        account: "carol".to_string(),
    });
    assert_eq!(
        q,
        Ok(QueryAnswer::Balance(transfer::msg::BalanceResponse {
            balance: 50
        }))
    );
}

#[test]
fn error_descriptions() {
    assert_eq!(
        ContractError::InvalidExpiration.describe(),
        "Cannot create expired contract"
    );
    assert_eq!(ContractError::Unauthorized.describe(), "Unauthorized");
    assert_eq!(
        ContractError::WithdrawalLimitReached.describe(),
        "Withdrawal limit reached"
    );
    assert_eq!(
        ContractError::AlreadyInitialized.describe(),
        "Already initialized"
    );
    assert_eq!(ContractError::NotFound.describe(), "Not found");
}
