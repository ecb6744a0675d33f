//! The records that the ledger keeps, and their mathematical views.

use vstd::prelude::*;

verus! {

/// An amount of one native denomination.
#[derive(Clone, Debug, PartialEq, Eq)]
pub struct Coin {
    pub denom: String,
    pub amount: u128,
}

/// Native coins held for `owner`, keyed by (owner, denomination).
#[derive(Clone, Debug, PartialEq, Eq)]
pub struct Deposit {
    pub owner: String,
    pub amount: Coin,
    pub count: u64,
}

/// Tokens of one token contract held for `owner`, keyed by (owner, contract).
#[derive(Clone, Debug, PartialEq, Eq)]
pub struct Cw20Deposit {
    pub owner: String,
    pub amount: u128,
    pub contract: String,
    pub count: u64,
}

/// A non-fungible token held in trust for `owner`, keyed by (owner, contract, token id).
#[derive(Clone, Debug, PartialEq, Eq)]
pub struct Cw721Deposit {
    pub owner: String,
    pub contract: String,
    pub token_id: String,
}

/// The price at which a token in custody may be bought, keyed by (contract, token id).
#[derive(Clone, Debug, PartialEq, Eq)]
pub struct Offer {
    pub owner: String,
    pub token_id: String,
    pub cw721_contract: String,
    pub cw20_contract: String,
    pub amount: u128,
}

pub struct CoinView {
    pub denom: Seq<char>,
    pub amount: nat,
}

pub struct DepositView {
    pub owner: Seq<char>,
    pub denom: Seq<char>,
    pub amount: nat,
    pub count: nat,
}

pub struct Cw20DepositView {
    pub owner: Seq<char>,
    pub amount: nat,
    pub contract: Seq<char>,
    pub count: nat,
}

pub struct Cw721DepositView {
    pub owner: Seq<char>,
    pub contract: Seq<char>,
    pub token_id: Seq<char>,
}

pub struct OfferView {
    pub owner: Seq<char>,
    pub token_id: Seq<char>,
    pub cw721_contract: Seq<char>,
    pub cw20_contract: Seq<char>,
    pub amount: nat,
}

impl View for Coin {
    type V = CoinView;

    open spec fn view(&self) -> CoinView {
        CoinView { denom: self.denom@, amount: self.amount as nat }
    }
}

impl View for Deposit {
    type V = DepositView;

    open spec fn view(&self) -> DepositView {
        DepositView {
            owner: self.owner@,
            denom: self.amount.denom@,
            amount: self.amount.amount as nat,
            count: self.count as nat,
        }
    }
}

impl View for Cw20Deposit {
    type V = Cw20DepositView;

    open spec fn view(&self) -> Cw20DepositView {
        Cw20DepositView {
            owner: self.owner@,
            amount: self.amount as nat,
            contract: self.contract@,
            count: self.count as nat,
        }
    }
}

impl View for Cw721Deposit {
    type V = Cw721DepositView;

    open spec fn view(&self) -> Cw721DepositView {
        Cw721DepositView { owner: self.owner@, contract: self.contract@, token_id: self.token_id@ }
    }
}

impl View for Offer {
    type V = OfferView;

    open spec fn view(&self) -> OfferView {
        OfferView {
            owner: self.owner@,
            token_id: self.token_id@,
            cw721_contract: self.cw721_contract@,
            cw20_contract: self.cw20_contract@,
            amount: self.amount as nat,
        }
    }
}

/// The views of a list of records, in the same order.
pub open spec fn views_of<T: View>(items: Seq<T>) -> Seq<T::V> {
    Seq::new(items.len(), |i: int| items[i]@)
}

} // verus!
