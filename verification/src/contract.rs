use vstd::prelude::*;

use crate::error::ContractError;
use crate::msg::{BalanceResponse, ExecuteMsg, InstantiateMsg, OwnerResponse, QueryAnswer, QueryMsg};
use crate::state::{
    balance_of, deposit_fits, half_of, initial_state, send_coins_spec, withdraw_fits,
    withdraw_spec, State, StateView,
};

verus! {

/// Validate the expiration threshold against the current block height and
/// build the initial record.
///
/// Succeeds exactly when the threshold is strictly in the future; the record
/// it returns has the caller as owner, empty deposit and beneficiary fields,
/// zero balances, and the given expiration. Otherwise nothing is created and
/// the one possible error is `InvalidExpiration`.
pub fn instantiate(sender: String, current_height: u64, msg: InstantiateMsg) -> (r: Result<
    State,
    ContractError,
>)
    ensures
        r is Ok <==> msg.expiration > current_height,
        r matches Ok(s) ==> s@ == initial_state(sender@, msg.expiration as int),
        r matches Err(e) ==> e == ContractError::InvalidExpiration,
{
    if msg.expiration <= current_height {
        return Err(ContractError::InvalidExpiration);
    }
    Ok(
        State {
            owner: sender,
            source: String::new(),
            sent_coins: 0,
            beneficiary_1: String::new(),
            beneficiary_2: String::new(),
            beneficiary1_balance: 0,
            beneficiary2_balance: 0,
            expiration: msg.expiration,
        },
    )
}

/// The deposit-and-split operation.
///
/// Records the caller as the most recent depositor and `sent_coins` as the
/// most recent amount, overwrites both beneficiary identities with the
/// supplied pair, and credits each slot with half the amount (rounding
/// toward zero, so an odd amount loses one unit). Never fails; the whole
/// effect is `send_coins_spec` of the prior record.
pub fn send_coins(
    state: &mut State,
    sender: String,
    sent_coins: i32,
    beneficiary1: String,
    beneficiary2: String,
) -> (r: Result<(), ContractError>)
    requires
        deposit_fits(old(state)@, sent_coins as int),
    ensures
        final(state)@ == send_coins_spec(
            old(state)@,
            sender@,
            sent_coins as int,
            beneficiary1@,
            beneficiary2@,
        ),
        r == Ok::<(), ContractError>(()),
{
    let half: i32 = sent_coins.checked_div(2).unwrap();
    assert(half as int == half_of(sent_coins as int));
    state.source = sender;
    state.sent_coins = sent_coins;
    state.beneficiary_1 = beneficiary1;
    state.beneficiary_2 = beneficiary2;
    state.beneficiary1_balance = state.beneficiary1_balance + half;
    state.beneficiary2_balance = state.beneficiary2_balance + half;
    Ok(())
}

/// The authorized-withdrawal operation.
///
/// The request must name a current beneficiary identity and be made by that
/// same identity; anything else fails `Unauthorized` with the record
/// unchanged. A matched slot whose balance is not strictly positive fails
/// `WithdrawalLimitReached` and has its identity cleared (marked closed);
/// otherwise the amount is subtracted from that slot's balance, with no
/// upper-bound check. The other slot is untouched in every case; the whole
/// effect and result are `withdraw_spec` of the prior record.
pub fn withdraw_coins(
    state: &mut State,
    sender: String,
    from_account: String,
    to_withdraw: i32,
) -> (r: Result<(), ContractError>)
    requires
        withdraw_fits(old(state)@, sender@, from_account@, to_withdraw as int),
    ensures
        final(state)@ == withdraw_spec(
            old(state)@,
            sender@,
            from_account@,
            to_withdraw as int,
        ).0,
        r == withdraw_spec(old(state)@, sender@, from_account@, to_withdraw as int).1,
{
    if from_account == state.beneficiary_1 && sender == from_account {
        if state.beneficiary1_balance <= 0 {
            state.beneficiary_1 = String::new();
            return Err(ContractError::WithdrawalLimitReached);
        }
        state.beneficiary1_balance = state.beneficiary1_balance - to_withdraw;
        Ok(())
    } else if from_account == state.beneficiary_2 && sender == from_account {
        if state.beneficiary2_balance <= 0 {
            state.beneficiary_2 = String::new();
            return Err(ContractError::WithdrawalLimitReached);
        }
        state.beneficiary2_balance = state.beneficiary2_balance - to_withdraw;
        Ok(())
    } else {
        Err(ContractError::Unauthorized)
    }
}

/// The overflow side conditions of `execute`, per request shape.
pub open spec fn execute_fits(s: StateView, sender: Seq<char>, msg: ExecuteMsg) -> bool {
    match msg {
        ExecuteMsg::SendCoins { sentCoins: amount, beneficiary1: _, beneficiary2: _ } => deposit_fits(
            s,
            amount as int,
        ),
        ExecuteMsg::WithdrawCoins { fromAccount: from_account, toWithdraw: amount } => withdraw_fits(
            s,
            sender,
            from_account@,
            amount as int,
        ),
    }
}

/// The effect and result of `execute`, per request shape.
pub open spec fn execute_spec(s: StateView, sender: Seq<char>, msg: ExecuteMsg) -> (
    StateView,
    Result<(), ContractError>,
) {
    match msg {
        ExecuteMsg::SendCoins {
            sentCoins: amount,
            beneficiary1: b1,
            beneficiary2: b2,
        } => (send_coins_spec(s, sender, amount as int, b1@, b2@), Ok(())),
        ExecuteMsg::WithdrawCoins {
            fromAccount: from_account,
            toWithdraw: amount,
        } => withdraw_spec(s, sender, from_account@, amount as int),
    }
}

/// Dispatch a mutating request to the matching operation.
pub fn execute(state: &mut State, sender: String, msg: ExecuteMsg) -> (r: Result<
    (),
    ContractError,
>)
    requires
        execute_fits(old(state)@, sender@, msg),
    ensures
        final(state)@ == execute_spec(old(state)@, sender@, msg).0,
        r == execute_spec(old(state)@, sender@, msg).1,
{
    match msg {
        ExecuteMsg::SendCoins {
            sentCoins: amount,
            beneficiary1: b1,
            beneficiary2: b2,
        } => send_coins(state, sender, amount, b1, b2),
        ExecuteMsg::WithdrawCoins {
            fromAccount: from_account,
            toWithdraw: amount,
        } => withdraw_coins(state, sender, from_account, amount),
    }
}

/// The owner query: returns the immutable owner, reading the record only.
pub fn owner(state: &State) -> (r: OwnerResponse)
    ensures
        r.owner@ == state@.owner,
{
    OwnerResponse { owner: state.owner.clone() }
}

/// The balance query: the matched slot's balance, or zero for an account
/// that is neither beneficiary. Reads the record only and never fails.
pub fn balance(state: &State, account: String) -> (r: BalanceResponse)
    ensures
        r.balance as int == balance_of(state@, account@),
{
    if account == state.beneficiary_1 {
        BalanceResponse { balance: state.beneficiary1_balance }
    } else if account == state.beneficiary_2 {
        BalanceResponse { balance: state.beneficiary2_balance }
    } else {
        BalanceResponse { balance: 0 }
    }
}

/// Dispatch a read-only request to the matching query.
pub fn query(state: &State, msg: QueryMsg) -> (r: QueryAnswer)
    ensures
        msg is GetOwner ==> (r matches QueryAnswer::Owner(o) && o.owner@ == state@.owner),
        msg matches QueryMsg::GetBalance { account } ==> (r matches QueryAnswer::Balance(b)
            && b.balance as int == balance_of(state@, account@)),
{
    match msg {
        QueryMsg::GetOwner {  } => QueryAnswer::Owner(owner(state)),
        QueryMsg::GetBalance { account } => QueryAnswer::Balance(balance(state, account)),
    }
}

} // verus!
