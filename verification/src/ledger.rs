use vstd::prelude::*;

use crate::contract;
use crate::contract::{execute_fits, execute_spec};
use crate::error::ContractError;
use crate::msg::{ExecuteMsg, InstantiateMsg, QueryAnswer, QueryMsg};
use crate::state::{balance_of, initial_state, send_coins_spec, withdraw_spec, State, StateView};

verus! {

/// One escrow ledger: the single escrow record, present once created.
///
/// The machine has two states — uninitialized (`record` is `None`) and
/// active. `create` is the only transition out of uninitialized and is
/// rejected on an active ledger; every other operation requires an active
/// ledger and keeps it active. The record is never deleted.
pub struct Escrow {
    pub record: Option<State>,
}

impl View for Escrow {
    type V = Option<StateView>;

    open spec fn view(&self) -> Option<StateView> {
        match self.record {
            Some(s) => Some(s@),
            None => None,
        }
    }
}

/// One ledger operation, as the transition model sees it: the authenticated
/// caller identity and the request's plain values.
pub enum LedgerOp {
    Create { sender: Seq<char>, current_height: int, expiration: int },
    Deposit { sender: Seq<char>, amount: int, beneficiary1: Seq<char>, beneficiary2: Seq<char> },
    Withdraw { sender: Seq<char>, from_account: Seq<char>, amount: int },
}

/// The record after one operation. Creation initializes the record exactly
/// when none exists and the threshold is in the future; it never replaces an
/// existing record. Deposits and withdrawals step the record by their
/// transition functions and do nothing on an uninitialized ledger.
pub open spec fn ledger_step(rec: Option<StateView>, op: LedgerOp) -> Option<StateView> {
    match op {
        LedgerOp::Create { sender, current_height, expiration } => match rec {
            Some(s) => Some(s),
            None => if expiration > current_height {
                Some(initial_state(sender, expiration))
            } else {
                None
            },
        },
        LedgerOp::Deposit { sender, amount, beneficiary1, beneficiary2 } => match rec {
            Some(s) => Some(send_coins_spec(s, sender, amount, beneficiary1, beneficiary2)),
            None => None,
        },
        LedgerOp::Withdraw { sender, from_account, amount } => match rec {
            Some(s) => Some(withdraw_spec(s, sender, from_account, amount).0),
            None => None,
        },
    }
}

/// The record after a sequence of operations, applied left to right.
pub open spec fn apply_ops(rec: Option<StateView>, ops: Seq<LedgerOp>) -> Option<StateView>
    decreases ops.len(),
{
    if ops.len() == 0 {
        rec
    } else {
        apply_ops(ledger_step(rec, ops.first()), ops.drop_first())
    }
}

/// The ghost operation that a mutating request stands for.
pub open spec fn op_of_execute(sender: Seq<char>, msg: ExecuteMsg) -> LedgerOp {
    match msg {
        ExecuteMsg::SendCoins {
            sentCoins: amount,
            beneficiary1: b1,
            beneficiary2: b2,
        } => LedgerOp::Deposit { sender, amount: amount as int, beneficiary1: b1@, beneficiary2: b2@ },
        ExecuteMsg::WithdrawCoins {
            fromAccount: from_account,
            toWithdraw: amount,
        } => LedgerOp::Withdraw { sender, from_account: from_account@, amount: amount as int },
    }
}

/// The result of `create`: rejected on an active ledger, rejected for a
/// threshold not strictly in the future, accepted otherwise.
pub open spec fn create_result(
    rec: Option<StateView>,
    current_height: int,
    expiration: int,
) -> Result<(), ContractError> {
    match rec {
        Some(_) => Err(ContractError::AlreadyInitialized),
        None => if expiration > current_height {
            Ok(())
        } else {
            Err(ContractError::InvalidExpiration)
        },
    }
}

/// The result of `execute`: rejected on an uninitialized ledger, else the
/// matched operation's own result.
pub open spec fn execute_result(
    rec: Option<StateView>,
    sender: Seq<char>,
    msg: ExecuteMsg,
) -> Result<(), ContractError> {
    match rec {
        None => Err(ContractError::NotFound),
        Some(s) => execute_spec(s, sender, msg).1,
    }
}

impl Escrow {
    /// A ledger with no record yet.
    pub fn new() -> (e: Escrow)
        ensures
            e@ is None,
    {
        Escrow { record: None }
    }

    /// Create the record: the only uninitialized-to-active transition.
    pub fn create(&mut self, sender: String, current_height: u64, msg: InstantiateMsg) -> (r:
        Result<(), ContractError>)
        ensures
            final(self)@ == ledger_step(
                old(self)@,
                (LedgerOp::Create {
                    sender: sender@,
                    current_height: current_height as int,
                    expiration: msg.expiration as int,
                }),
            ),
            r == create_result(old(self)@, current_height as int, msg.expiration as int),
    {
        if self.record.is_some() {
            return Err(ContractError::AlreadyInitialized);
        }
        match contract::instantiate(sender, current_height, msg) {
            Ok(s) => {
                self.record = Some(s);
                Ok(())
            },
            Err(e) => Err(e),
        }
    }

    /// Apply a mutating request to the record.
    pub fn execute(&mut self, sender: String, msg: ExecuteMsg) -> (r: Result<(), ContractError>)
        requires
            old(self)@ matches Some(s) ==> execute_fits(s, sender@, msg),
        ensures
            final(self)@ == ledger_step(old(self)@, op_of_execute(sender@, msg)),
            r == execute_result(old(self)@, sender@, msg),
    {
        match &mut self.record {
            None => Err(ContractError::NotFound),
            Some(s) => contract::execute(s, sender, msg),
        }
    }

    /// Answer a read-only request from the record, which it never mutates.
    pub fn query(&self, msg: QueryMsg) -> (r: Result<QueryAnswer, ContractError>)
        ensures
            self@ is None <==> r == Err::<QueryAnswer, ContractError>(ContractError::NotFound),
            self@ matches Some(s) ==> (msg is GetOwner ==> (r matches Ok(QueryAnswer::Owner(o))
                && o.owner@ == s.owner)),
            self@ matches Some(s) ==> (msg matches QueryMsg::GetBalance { account } ==> (r matches
                Ok(QueryAnswer::Balance(b)) && b.balance as int == balance_of(s, account@))),
    {
        match &self.record {
            None => Err(ContractError::NotFound),
            Some(s) => Ok(contract::query(s, msg)),
        }
    }
}

} // verus!
