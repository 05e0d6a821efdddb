use vstd::prelude::*;

verus! {

/// The creation request: the block-height threshold before which the escrow
/// must be created.
#[derive(Clone, Copy, Debug, PartialEq, Eq, Structural)]
pub struct InstantiateMsg {
    pub expiration: u64,
}

/// The two mutating requests.
///
/// `SendCoins`: any account may deposit an amount into the contract and
/// name the two beneficiary accounts for this deposit (they overwrite any
/// prior pair). `WithdrawCoins`: a beneficiary account may withdraw against
/// its own slot's balance.
#[allow(non_snake_case)]
#[derive(Debug, PartialEq)]
pub enum ExecuteMsg {
    SendCoins { sentCoins: i32, beneficiary1: String, beneficiary2: String },
    WithdrawCoins { fromAccount: String, toWithdraw: i32 },
}

/// The two read-only requests: the immutable owner, and the balance visible
/// to a given account.
#[derive(Debug, PartialEq)]
pub enum QueryMsg {
    GetOwner {},
    GetBalance { account: String },
}

/// The answer to `GetOwner`.
#[derive(Debug, PartialEq)]
pub struct OwnerResponse {
    pub owner: String,
}

/// The answer to `GetBalance`.
#[derive(Clone, Copy, Debug, PartialEq, Eq, Structural)]
pub struct BalanceResponse {
    pub balance: i32,
}

/// The answer to a query: one of the two response shapes.
#[derive(Debug, PartialEq)]
pub enum QueryAnswer {
    Owner(OwnerResponse),
    Balance(BalanceResponse),
}

} // verus!
