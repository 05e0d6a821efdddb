use vstd::prelude::*;

use crate::error::ContractError;

verus! {

/// The single persisted escrow record.
///
/// `owner` is fixed at creation. `source` and `sent_coins` describe the most
/// recent deposit (`source` is empty until the first deposit). Each
/// beneficiary slot is an identity together with its withdrawable balance;
/// the empty identity is the sentinel for a cleared (closed) slot.
/// `expiration` is a block-height threshold checked only at creation.
pub struct State {
    pub owner: String,
    pub source: String,
    pub sent_coins: i32,
    pub beneficiary_1: String,
    pub beneficiary_2: String,
    pub beneficiary1_balance: i32,
    pub beneficiary2_balance: i32,
    pub expiration: u64,
}

/// The mathematical value of a `State`: identities as character sequences,
/// balances as unbounded integers. All contracts and laws are stated over
/// this view.
#[verifier::ext_equal]
pub struct StateView {
    pub owner: Seq<char>,
    pub source: Seq<char>,
    pub sent_coins: int,
    pub beneficiary_1: Seq<char>,
    pub beneficiary_2: Seq<char>,
    pub beneficiary1_balance: int,
    pub beneficiary2_balance: int,
    pub expiration: int,
}

impl View for State {
    type V = StateView;

    open spec fn view(&self) -> StateView {
        StateView {
            owner: self.owner@,
            source: self.source@,
            sent_coins: self.sent_coins as int,
            beneficiary_1: self.beneficiary_1@,
            beneficiary_2: self.beneficiary_2@,
            beneficiary1_balance: self.beneficiary1_balance as int,
            beneficiary2_balance: self.beneficiary2_balance as int,
            expiration: self.expiration as int,
        }
    }
}

/// The record as creation leaves it: the caller as owner, both slots empty
/// with zero balances, no deposit recorded yet, and the given expiration.
pub open spec fn initial_state(owner: Seq<char>, expiration: int) -> StateView {
    StateView {
        owner: owner,
        source: Seq::<char>::empty(),
        sent_coins: 0,
        beneficiary_1: Seq::<char>::empty(),
        beneficiary_2: Seq::<char>::empty(),
        beneficiary1_balance: 0,
        beneficiary2_balance: 0,
        expiration: expiration,
    }
}

/// Half of `amount`, rounding toward zero: the share credited to each
/// beneficiary slot by a deposit. An odd amount loses its last unit.
pub open spec fn half_of(amount: int) -> int {
    if amount >= 0 {
        amount / 2
    } else {
        -((-amount) / 2)
    }
}

/// The deposit transition: record the depositor and the amount, re-declare
/// both beneficiary identities, and credit each slot with half the amount.
/// The owner and the expiration are untouched.
pub open spec fn send_coins_spec(
    s: StateView,
    sender: Seq<char>,
    amount: int,
    beneficiary1: Seq<char>,
    beneficiary2: Seq<char>,
) -> StateView {
    StateView {
        source: sender,
        sent_coins: amount,
        beneficiary_1: beneficiary1,
        beneficiary_2: beneficiary2,
        beneficiary1_balance: s.beneficiary1_balance + half_of(amount),
        beneficiary2_balance: s.beneficiary2_balance + half_of(amount),
        ..s
    }
}

/// A withdrawal request matches the first slot when the named account is the
/// slot's current identity and the caller is that same identity.
pub open spec fn slot1_matched(s: StateView, sender: Seq<char>, from_account: Seq<char>) -> bool {
    from_account == s.beneficiary_1 && sender == from_account
}

/// A withdrawal request matches the second slot when it does not match the
/// first, the named account is the second slot's current identity, and the
/// caller is that same identity.
pub open spec fn slot2_matched(s: StateView, sender: Seq<char>, from_account: Seq<char>) -> bool {
    &&& !slot1_matched(s, sender, from_account)
    &&& from_account == s.beneficiary_2
    &&& sender == from_account
}

/// The withdrawal transition: the next record and the operation's result.
///
/// A request that matches neither slot fails `Unauthorized` and leaves the
/// record unchanged. A matched slot whose balance is not strictly positive
/// fails `WithdrawalLimitReached` and has its identity cleared (the slot is
/// marked closed). Otherwise the amount is subtracted from the matched
/// slot's balance, with no upper-bound check against the balance. At most
/// one slot is touched; the other slot, the owner, the deposit fields and
/// the expiration are untouched in every case.
pub open spec fn withdraw_spec(
    s: StateView,
    sender: Seq<char>,
    from_account: Seq<char>,
    amount: int,
) -> (StateView, Result<(), ContractError>) {
    if slot1_matched(s, sender, from_account) {
        if s.beneficiary1_balance <= 0 {
            (
                (StateView { beneficiary_1: Seq::<char>::empty(), ..s }),
                Err(ContractError::WithdrawalLimitReached),
            )
        } else {
            (
                (StateView { beneficiary1_balance: s.beneficiary1_balance - amount, ..s }),
                Ok(()),
            )
        }
    } else if slot2_matched(s, sender, from_account) {
        if s.beneficiary2_balance <= 0 {
            (
                (StateView { beneficiary_2: Seq::<char>::empty(), ..s }),
                Err(ContractError::WithdrawalLimitReached),
            )
        } else {
            (
                (StateView { beneficiary2_balance: s.beneficiary2_balance - amount, ..s }),
                Ok(()),
            )
        }
    } else {
        (s, Err(ContractError::Unauthorized))
    }
}

/// The balance visible to `account`: the first slot's balance if the account
/// is the first beneficiary, else the second slot's if it is the second
/// beneficiary, else zero. Unknown accounts read zero, never an error.
pub open spec fn balance_of(s: StateView, account: Seq<char>) -> int {
    if account == s.beneficiary_1 {
        s.beneficiary1_balance
    } else if account == s.beneficiary_2 {
        s.beneficiary2_balance
    } else {
        0
    }
}

/// `v` fits in the machine representation of a balance.
pub open spec fn fits_i32(v: int) -> bool {
    i32::MIN <= v <= i32::MAX
}

/// Both credited balances of a deposit of `amount` stay representable.
pub open spec fn deposit_fits(s: StateView, amount: int) -> bool {
    &&& fits_i32(s.beneficiary1_balance + half_of(amount))
    &&& fits_i32(s.beneficiary2_balance + half_of(amount))
}

/// The decremented balance of a withdrawal stays representable in the one
/// case in which the transition decrements it.
pub open spec fn withdraw_fits(
    s: StateView,
    sender: Seq<char>,
    from_account: Seq<char>,
    amount: int,
) -> bool {
    &&& slot1_matched(s, sender, from_account) && s.beneficiary1_balance > 0 ==> fits_i32(
        s.beneficiary1_balance - amount,
    )
    &&& slot2_matched(s, sender, from_account) && s.beneficiary2_balance > 0 ==> fits_i32(
        s.beneficiary2_balance - amount,
    )
}

} // verus!
