//! The ways in which a call on the ledger can fail.

use vstd::prelude::*;

verus! {

#[verifier::external_type_specification]
#[verifier::external_body]
pub struct ExStdError(cosmwasm_std::StdError);

#[derive(Debug)]
pub enum ContractError {
    /// A failure of the storage layer.
    Std(cosmwasm_std::StdError),
    CustomError { val: String },
    InvalidOwner {},
    /// A coin deposit that does not carry exactly one coin of a positive amount.
    InvalidCoin {},
    /// A payment that is not the asked price.
    InvalidBid {},
    /// No token of that contract and id is for sale.
    NoBidsForTokenID {},
    /// No tokens of that token contract are held for the owner.
    NoCw20ToWithdraw {},
    /// The caller has no such token in custody.
    NoCw721ToWithdraw {},
    /// The token is in custody already.
    Cw721AlreadyDeposited {},
    /// No coins of that denomination are held for the caller.
    NoDepositFound {},
    /// A withdrawal of more than is held, or from a record with no deposit left to count down.
    InsufficientBalance {},
    /// A deposit that would carry a balance or a count past what its integer can hold.
    ArithmeticOverflow {},
    /// A query that matches no record.
    NotFound {},
    /// A payment that comes through a token contract other than the one the ask names.
    Unauthorized {},
    /// An identity too long to be a leading segment of a storage key.
    InvalidAddress {},
}

} // verus!
