//! The calls that the engine takes and the results that it hands back.

use crate::state::{Coin, Cw20Deposit, Cw721Deposit, Deposit};
use vstd::prelude::*;

verus! {

#[derive(Clone, Debug, PartialEq, Eq)]
pub struct InstantiateMsg {}

/// Who calls, and the coins attached to the call.
#[derive(Clone, Debug, PartialEq, Eq)]
pub struct MessageInfo {
    pub sender: String,
    pub funds: Vec<Coin>,
}

/// What a depositor asks for when a token contract reports a transfer to the engine.
#[derive(Clone, Debug, PartialEq, Eq)]
pub enum Cw20HookMsg {
    Deposit { owner: String, amount: u128 },
    Purchase { token_id: String, cw721_contract: String },
}

/// What a depositor asks for when an NFT contract reports a transfer to the engine.
#[derive(Clone, Debug, PartialEq, Eq)]
pub enum Cw721HookMsg {
    Deposit { owner: String, token_id: String, cw20_contract: String, amount: u128 },
}

/// A token contract's notice that `amount` tokens came from `sender`, with the request it carries.
#[derive(Clone, Debug, PartialEq, Eq)]
pub struct Cw20ReceiveMsg {
    pub sender: String,
    pub amount: u128,
    pub msg: Cw20HookMsg,
}

/// An NFT contract's notice that `token_id` came from `sender`, with the request it carries.
#[derive(Clone, Debug, PartialEq, Eq)]
pub struct Cw721ReceiveMsg {
    pub sender: String,
    pub token_id: String,
    pub msg: Cw721HookMsg,
}

#[derive(Clone, Debug, PartialEq, Eq)]
pub enum ExecuteMsg {
    Deposit {},
    Withdraw { amount: u128, denom: String },
    Receive(Cw20ReceiveMsg),
    ReceiveNft(Cw721ReceiveMsg),
    WithdrawCw20 { owner: String, amount: u128 },
    WithdrawNft { cw721_contract: String, token_id: String },
}

#[derive(Clone, Debug, PartialEq, Eq)]
pub enum QueryMsg {
    GetCw20Deposit { address: String },
    GetDeposits { address: String },
    GetCw721Deposit { address: String, contract: String },
}

#[derive(Clone, Debug, PartialEq, Eq)]
pub struct Cw20DepositResponse {
    pub deposits: Vec<Cw20Deposit>,
}

#[derive(Clone, Debug, PartialEq, Eq)]
pub struct DepositResponse {
    pub deposits: Vec<Deposit>,
}

#[derive(Clone, Debug, PartialEq, Eq)]
pub struct Cw721DepositResponse {
    pub deposits: Vec<Cw721Deposit>,
}

/// The answer to a query, by the kind of record asked for.
#[derive(Clone, Debug, PartialEq, Eq)]
pub enum QueryResponse {
    Cw20Deposits(Cw20DepositResponse),
    Deposits(DepositResponse),
    Cw721Deposits(Cw721DepositResponse),
}

/// A key and a value that describe what a call did.
#[derive(Clone, Debug, PartialEq, Eq)]
pub struct Attribute {
    pub key: String,
    pub value: String,
}

/// A transfer that the host is asked to carry out together with the call's change of state.
#[derive(Clone, Debug, PartialEq, Eq)]
pub enum TransferRequest {
    /// Send `amount` of the native denomination `denom` to `to_address`.
    Coins { to_address: String, denom: String, amount: u128 },
    /// Have the NFT contract `contract_addr` hand `token_id` to `recipient`.
    Nft { contract_addr: String, recipient: String, token_id: String },
}

/// What a successful call hands back: its attributes and the transfers it asks for.
#[derive(Clone, Debug, PartialEq, Eq)]
pub struct Response {
    pub attributes: Vec<Attribute>,
    pub messages: Vec<TransferRequest>,
}

pub struct AttributeView {
    pub key: Seq<char>,
    pub value: Seq<char>,
}

pub enum TransferView {
    Coins { to_address: Seq<char>, denom: Seq<char>, amount: nat },
    Nft { contract_addr: Seq<char>, recipient: Seq<char>, token_id: Seq<char> },
}

pub struct ResponseView {
    pub attributes: Seq<AttributeView>,
    pub messages: Seq<TransferView>,
}

impl View for Attribute {
    type V = AttributeView;

    open spec fn view(&self) -> AttributeView {
        AttributeView { key: self.key@, value: self.value@ }
    }
}

impl View for TransferRequest {
    type V = TransferView;

    open spec fn view(&self) -> TransferView {
        match self {
            TransferRequest::Coins { to_address, denom, amount } => TransferView::Coins {
                to_address: to_address@,
                denom: denom@,
                amount: *amount as nat,
            },
            TransferRequest::Nft { contract_addr, recipient, token_id } => TransferView::Nft {
                contract_addr: contract_addr@,
                recipient: recipient@,
                token_id: token_id@,
            },
        }
    }
}

impl View for Response {
    type V = ResponseView;

    open spec fn view(&self) -> ResponseView {
        ResponseView {
            attributes: Seq::new(self.attributes@.len(), |i: int| self.attributes@[i]@),
            messages: Seq::new(self.messages@.len(), |i: int| self.messages@[i]@),
        }
    }
}

/// One attribute, as a view.
pub open spec fn attr(key: Seq<char>, value: Seq<char>) -> AttributeView {
    AttributeView { key, value }
}

impl Response {
    /// A result with no attribute and no transfer.
    pub fn new() -> (r: Response)
        ensures
            r@.attributes == Seq::<AttributeView>::empty(),
            r@.messages == Seq::<TransferView>::empty(),
    {
        let r = Response { attributes: Vec::new(), messages: Vec::new() };
        assert(r@.attributes =~= Seq::<AttributeView>::empty());
        assert(r@.messages =~= Seq::<TransferView>::empty());
        r
    }

    /// The same result with one more attribute at the end.
    pub fn add_attribute(self, key: &str, value: String) -> (r: Response)
        ensures
            r@.attributes == self@.attributes.push(attr(key@, value@)),
            r@.messages == self@.messages,
    {
        let mut r = self;
        let ghost before = r@;
        r.attributes.push(Attribute { key: String::from_str(key), value });
        assert(r@.attributes =~= before.attributes.push(attr(key@, value@)));
        assert(r@.messages =~= before.messages);
        r
    }

    /// The same result with one more transfer at the end.
    pub fn add_message(self, msg: TransferRequest) -> (r: Response)
        ensures
            r@.attributes == self@.attributes,
            r@.messages == self@.messages.push(msg@),
    {
        let mut r = self;
        let ghost before = r@;
        r.messages.push(msg);
        assert(r@.attributes =~= before.attributes);
        assert(r@.messages =~= before.messages.push(msg@));
        r
    }
}

} // verus!
