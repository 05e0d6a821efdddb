use vstd::prelude::*;

use crate::error::ContractError;
use crate::ledger::{apply_ops, ledger_step, LedgerOp};
use crate::state::{
    balance_of, initial_state, send_coins_spec, slot1_matched, slot2_matched, withdraw_spec,
    StateView,
};

verus! {

/// One ledger operation applied to an existing record leaves a record with
/// the same owner.
pub proof fn lemma_step_preserves_owner(s: StateView, op: LedgerOp)
    ensures
        ledger_step(Some(s), op) matches Some(t) && t.owner == s.owner,
{
}

/// Ownership immutability: from any existing record, no sequence of ledger
/// operations — creations, deposits, withdrawals, in any order, succeeding
/// or failing — ever removes the record or changes its owner.
pub proof fn lemma_ownership_immutable(s: StateView, ops: Seq<LedgerOp>)
    ensures
        apply_ops(Some(s), ops) matches Some(t) && t.owner == s.owner,
    decreases ops.len(),
{
    if ops.len() == 0 {
    } else {
        lemma_step_preserves_owner(s, ops.first());
        match ledger_step(Some(s), ops.first()) {
            Some(t) => {
                lemma_ownership_immutable(t, ops.drop_first());
            },
            None => {
                assert(false);
            },
        }
    }
}

/// Ownership immutability from creation: after a successful creation by
/// `sender`, every sequence of further operations leaves a record whose
/// owner is still `sender`.
pub proof fn lemma_owner_fixed_at_creation(
    sender: Seq<char>,
    current_height: int,
    expiration: int,
    ops: Seq<LedgerOp>,
)
    requires
        expiration > current_height,
    ensures
        apply_ops(
            ledger_step(None, (LedgerOp::Create { sender, current_height, expiration })),
            ops,
        ) matches Some(t) && t.owner == sender,
{
    lemma_ownership_immutable(initial_state(sender, expiration), ops);
}

/// Split correctness: an even, nonnegative amount deposited on a record
/// whose balances are both zero leaves each named beneficiary reading
/// exactly half of it.
pub proof fn lemma_split_correctness(
    s: StateView,
    sender: Seq<char>,
    amount: int,
    b1: Seq<char>,
    b2: Seq<char>,
)
    requires
        amount >= 0,
        amount % 2 == 0,
        s.beneficiary1_balance == 0,
        s.beneficiary2_balance == 0,
    ensures
        balance_of(send_coins_spec(s, sender, amount, b1, b2), b1) == amount / 2,
        balance_of(send_coins_spec(s, sender, amount, b1, b2), b2) == amount / 2,
{
}

/// Authorization: a withdrawal whose caller differs from the named account,
/// or whose named account is neither beneficiary identity, fails
/// `Unauthorized` and leaves the record unchanged — regardless of balances.
pub proof fn lemma_withdraw_authorization(
    s: StateView,
    sender: Seq<char>,
    from_account: Seq<char>,
    amount: int,
)
    requires
        sender != from_account || (from_account != s.beneficiary_1 && from_account
            != s.beneficiary_2),
    ensures
        withdraw_spec(s, sender, from_account, amount).0 == s,
        withdraw_spec(s, sender, from_account, amount).1 == Err::<(), ContractError>(
            ContractError::Unauthorized,
        ),
{
}

/// Slot isolation: a withdrawal touches at most the slot it matches. The
/// other slot's identity and balance are untouched, an unauthorized request
/// changes nothing, and the owner, deposit fields and expiration are
/// untouched in every case.
pub proof fn lemma_slot_isolation(
    s: StateView,
    sender: Seq<char>,
    from_account: Seq<char>,
    amount: int,
)
    ensures
        ({
            let t = withdraw_spec(s, sender, from_account, amount).0;
            &&& slot1_matched(s, sender, from_account) ==> t.beneficiary_2 == s.beneficiary_2
                && t.beneficiary2_balance == s.beneficiary2_balance
            &&& slot2_matched(s, sender, from_account) ==> t.beneficiary_1 == s.beneficiary_1
                && t.beneficiary1_balance == s.beneficiary1_balance
            &&& !slot1_matched(s, sender, from_account) && !slot2_matched(s, sender, from_account)
                ==> t == s
            &&& t.owner == s.owner
            &&& t.source == s.source
            &&& t.sent_coins == s.sent_coins
            &&& t.expiration == s.expiration
        }),
{
}

/// Exhaustion marks the first slot closed: a withdrawal by the first
/// beneficiary against its own slot while the balance is not strictly
/// positive fails `WithdrawalLimitReached` and clears the slot's identity,
/// and a second attempt with the original identity then fails
/// `Unauthorized`, changing nothing further. (Stated for an identity that is
/// not the empty sentinel and does not also hold the second slot; an
/// identity held by both slots would still match the second one.)
pub proof fn lemma_exhaustion_closes_slot1(
    s: StateView,
    from_account: Seq<char>,
    amount1: int,
    amount2: int,
)
    requires
        from_account == s.beneficiary_1,
        s.beneficiary1_balance <= 0,
        from_account.len() > 0,
        from_account != s.beneficiary_2,
    ensures
        withdraw_spec(s, from_account, from_account, amount1).1 == Err::<(), ContractError>(
            ContractError::WithdrawalLimitReached,
        ),
        ({
            let t = withdraw_spec(s, from_account, from_account, amount1).0;
            &&& t.beneficiary_1 == Seq::<char>::empty()
            &&& withdraw_spec(t, from_account, from_account, amount2).1 == Err::<(
            ), ContractError>(ContractError::Unauthorized)
            &&& withdraw_spec(t, from_account, from_account, amount2).0 == t
        }),
{
}

/// Exhaustion marks the second slot closed: the counterpart of
/// `lemma_exhaustion_closes_slot1` for the second beneficiary slot.
pub proof fn lemma_exhaustion_closes_slot2(
    s: StateView,
    from_account: Seq<char>,
    amount1: int,
    amount2: int,
)
    requires
        from_account == s.beneficiary_2,
        from_account != s.beneficiary_1,
        s.beneficiary2_balance <= 0,
        from_account.len() > 0,
    ensures
        withdraw_spec(s, from_account, from_account, amount1).1 == Err::<(), ContractError>(
            ContractError::WithdrawalLimitReached,
        ),
        ({
            let t = withdraw_spec(s, from_account, from_account, amount1).0;
            &&& t.beneficiary_2 == Seq::<char>::empty()
            &&& withdraw_spec(t, from_account, from_account, amount2).1 == Err::<(
            ), ContractError>(ContractError::Unauthorized)
            &&& withdraw_spec(t, from_account, from_account, amount2).0 == t
        }),
{
}

} // verus!
