//! The arithmetic of a balance record: what a deposit and a withdrawal make of
//! the record that is held, and how a call that wrote a record ends.

use crate::error::ContractError;
use crate::model::{coin_credited, coin_debited, credit_fits, debit_fits, token_credited,
    token_debited};
use crate::msg::Response;
use crate::state::{Coin, Cw20Deposit, Deposit};
use cosmwasm_std::StdError;
use vstd::prelude::*;

verus! {

/// The views of a record that may be held.
pub open spec fn held_view<T: View>(held: Option<T>) -> Option<T::V> {
    match held {
        Some(d) => Some(d@),
        None => None,
    }
}

/// The coin record after a deposit of `amount`: a first deposit opens the
/// record for `owner` and `denom`, a later one adds to the balance and the
/// count by checked addition.
pub fn credit_coin(held: Option<Deposit>, owner: &str, denom: &str, amount: u128) -> (r: Result<
    Deposit,
    ContractError,
>)
    ensures
        match held {
            Some(d) if !credit_fits(d@.amount, d@.count, amount as nat) => r == Err::<
                Deposit,
                ContractError,
            >(ContractError::ArithmeticOverflow {  }),
            _ => r is Ok && r->Ok_0@ == coin_credited(
                held_view(held),
                owner@,
                denom@,
                amount as nat,
            ),
        },
{
    match held {
        Some(d) => {
            let new_amount: u128 = match d.amount.amount.checked_add(amount) {
                Some(sum) => sum,
                None => {
                    return Err(ContractError::ArithmeticOverflow {  });
                },
            };
            let new_count: u64 = match d.count.checked_add(1) {
                Some(sum) => sum,
                None => {
                    return Err(ContractError::ArithmeticOverflow {  });
                },
            };
            Ok(
                Deposit {
                    owner: d.owner,
                    amount: Coin { denom: d.amount.denom, amount: new_amount },
                    count: new_count,
                },
            )
        },
        None => Ok(
            Deposit {
                owner: String::from_str(owner),
                amount: Coin { denom: String::from_str(denom), amount },
                count: 1,
            },
        ),
    }
}

/// The coin record after a withdrawal of `amount`: the balance and the count go
/// down by checked subtraction, and a record that cannot give is left alone.
pub fn debit_coin(held: Deposit, amount: u128) -> (r: Result<Deposit, ContractError>)
    ensures
        if debit_fits(held@.amount, held@.count, amount as nat) {
            r is Ok && r->Ok_0@ == coin_debited(held@, amount as nat)
        } else {
            r == Err::<Deposit, ContractError>(ContractError::InsufficientBalance {  })
        },
{
    let new_count: u64 = match held.count.checked_sub(1) {
        Some(left) => left,
        None => {
            return Err(ContractError::InsufficientBalance {  });
        },
    };
    let new_amount: u128 = match held.amount.amount.checked_sub(amount) {
        Some(left) => left,
        None => {
            return Err(ContractError::InsufficientBalance {  });
        },
    };
    Ok(
        Deposit {
            owner: held.owner,
            amount: Coin { denom: held.amount.denom, amount: new_amount },
            count: new_count,
        },
    )
}

/// The token record after a deposit of `amount`: a first deposit opens the
/// record for `owner` and `contract`, a later one adds to the balance and the
/// count by checked addition.
pub fn credit_token(held: Option<Cw20Deposit>, owner: &str, contract: &str, amount: u128) -> (r:
    Result<Cw20Deposit, ContractError>)
    ensures
        match held {
            Some(d) if !credit_fits(d@.amount, d@.count, amount as nat) => r == Err::<
                Cw20Deposit,
                ContractError,
            >(ContractError::ArithmeticOverflow {  }),
            _ => r is Ok && r->Ok_0@ == token_credited(
                held_view(held),
                owner@,
                contract@,
                amount as nat,
            ),
        },
{
    match held {
        Some(d) => {
            let new_amount: u128 = match d.amount.checked_add(amount) {
                Some(sum) => sum,
                None => {
                    return Err(ContractError::ArithmeticOverflow {  });
                },
            };
            let new_count: u64 = match d.count.checked_add(1) {
                Some(sum) => sum,
                None => {
                    return Err(ContractError::ArithmeticOverflow {  });
                },
            };
            Ok(
                Cw20Deposit {
                    owner: d.owner,
                    amount: new_amount,
                    contract: d.contract,
                    count: new_count,
                },
            )
        },
        None => Ok(
            Cw20Deposit {
                owner: String::from_str(owner),
                amount,
                contract: String::from_str(contract),
                count: 1,
            },
        ),
    }
}

/// The token record after a withdrawal of `amount`: the balance and the count
/// go down by checked subtraction, and a record that cannot give is left alone.
pub fn debit_token(held: Cw20Deposit, amount: u128) -> (r: Result<Cw20Deposit, ContractError>)
    ensures
        if debit_fits(held@.amount, held@.count, amount as nat) {
            r is Ok && r->Ok_0@ == token_debited(held@, amount as nat)
        } else {
            r == Err::<Cw20Deposit, ContractError>(ContractError::InsufficientBalance {  })
        },
{
    let new_count: u64 = match held.count.checked_sub(1) {
        Some(left) => left,
        None => {
            return Err(ContractError::InsufficientBalance {  });
        },
    };
    let new_amount: u128 = match held.amount.checked_sub(amount) {
        Some(left) => left,
        None => {
            return Err(ContractError::InsufficientBalance {  });
        },
    };
    Ok(
        Cw20Deposit {
            owner: held.owner,
            amount: new_amount,
            contract: held.contract,
            count: new_count,
        },
    )
}

/// How a call that wrote a record ends: with its result where the store took
/// the record, with the store's error where it did not.
pub fn settle(saved: Result<(), StdError>, response: Response) -> (r: Result<
    Response,
    ContractError,
>)
    ensures
        match saved {
            Ok(_) => r == Ok::<Response, ContractError>(response),
            Err(e) => r == Err::<Response, ContractError>(ContractError::Std(e)),
        },
{
    match saved {
        Ok(()) => Ok(response),
        Err(e) => Err(ContractError::Std(e)),
    }
}

} // verus!
