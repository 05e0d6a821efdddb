use vstd::prelude::*;

verus! {

/// Typed failures of the escrow ledger. Every mutating operation either fully
/// applies its effect or returns one of these; queries never fail once the
/// record exists.
#[derive(Clone, Copy, Debug, PartialEq, Eq, Structural)]
pub enum ContractError {
    /// Creation was attempted with an expiration threshold that is not
    /// strictly in the future.
    InvalidExpiration,
    /// A withdrawal was attempted by a caller that does not match the
    /// beneficiary slot it tried to draw from.
    Unauthorized,
    /// A withdrawal was attempted against a slot whose balance is not
    /// strictly positive; the slot is marked closed as a side effect.
    WithdrawalLimitReached,
    /// Creation was attempted while a record already exists.
    AlreadyInitialized,
    /// An operation was attempted before any record was created.
    NotFound,
}

impl ContractError {
    /// A short human-readable description of the error.
    pub fn describe(&self) -> (r: &'static str)
        ensures
            self is InvalidExpiration ==> r@ == "Cannot create expired contract"@,
            self is Unauthorized ==> r@ == "Unauthorized"@,
            self is WithdrawalLimitReached ==> r@ == "Withdrawal limit reached"@,
            self is AlreadyInitialized ==> r@ == "Already initialized"@,
            self is NotFound ==> r@ == "Not found"@,
    {
        match self {
            ContractError::InvalidExpiration => "Cannot create expired contract",
            ContractError::Unauthorized => "Unauthorized",
            ContractError::WithdrawalLimitReached => "Withdrawal limit reached",
            ContractError::AlreadyInitialized => "Already initialized",
            ContractError::NotFound => "Not found",
        }
    }
}

} // verus!
