//! What each operation is meant to do, as a function from the ledger before the
//! call to the ledger after it and the result handed back.

use crate::error::ContractError;
use crate::msg::{attr, Response, ResponseView, TransferView};
use crate::state::{CoinView, Cw20DepositView, Cw721DepositView, DepositView, OfferView};
use crate::store::{lists_all, segment_ok, LedgerView};
use crate::text::decimal;
use vstd::prelude::*;

verus! {

/// A call that goes through: the ledger it leaves and the result it hands back.
pub struct Effect {
    pub ledger: LedgerView,
    pub response: ResponseView,
}

/// A call ends as planned. Where the plan is an error, that error comes back
/// and the ledger is as before. Where the plan is an effect, the call succeeds,
/// hands back the planned result and leaves the planned ledger.
pub open spec fn carries_out(
    r: Result<Response, ContractError>,
    planned: Result<Effect, ContractError>,
    before: LedgerView,
    after: LedgerView,
) -> bool {
    match planned {
        Err(e) => r == Err::<Response, ContractError>(e) && after == before,
        Ok(effect) => r is Ok && r->Ok_0@ == effect.response && after == effect.ledger,
    }
}

/// Listing a token for sale: the NFT contract `contract` reports that `owner`
/// handed it `token_id`, to be sold for `amount` tokens of `cw20_contract`.
pub open spec fn list_for_sale(
    l: LedgerView,
    contract: Seq<char>,
    owner: Seq<char>,
    token_id: Seq<char>,
    cw20_contract: Seq<char>,
    amount: nat,
) -> Result<Effect, ContractError> {
    if !segment_ok(owner) || !segment_ok(contract) {
        Err(ContractError::InvalidAddress {  })
    } else if l.custody.contains_key((owner, contract, token_id)) || l.asks.contains_key(
        (contract, token_id),
    ) {
        Err(ContractError::Cw721AlreadyDeposited {  })
    } else {
        Ok(
            Effect {
                ledger: LedgerView {
                    custody: l.custody.insert(
                        (owner, contract, token_id),
                        Cw721DepositView { owner, contract, token_id },
                    ),
                    asks: l.asks.insert(
                        (contract, token_id),
                        OfferView {
                            owner,
                            token_id,
                            cw721_contract: contract,
                            cw20_contract,
                            amount,
                        },
                    ),
                    ..l
                },
                response: ResponseView {
                    attributes: seq![
                        attr("execute"@, "deposit_cw721"@),
                        attr("owner"@, owner),
                        attr("cw721_contract"@, contract),
                        attr("token_id"@, token_id),
                        attr("cw20_addr"@, cw20_contract),
                        attr("amount_requested"@, decimal(amount)),
                    ],
                    messages: Seq::empty(),
                },
            },
        )
    }
}

/// Buying a listed token: the token contract `caller` reports that `buyer`
/// paid `paid` for `token_id` of the NFT contract `contract`. Only the asked
/// price buys, and only when the contract that reports it is the one that the
/// ask names as its price token. The custody record and the ask go together,
/// and the token is sent to the buyer. The payment stays with the engine: no
/// transfer to the seller is asked for.
pub open spec fn purchase(
    l: LedgerView,
    caller: Seq<char>,
    contract: Seq<char>,
    token_id: Seq<char>,
    buyer: Seq<char>,
    paid: nat,
) -> Result<Effect, ContractError> {
    if !segment_ok(contract) {
        Err(ContractError::InvalidAddress {  })
    } else if !l.asks.contains_key((contract, token_id)) {
        Err(ContractError::NoBidsForTokenID {  })
    } else {
        let ask = l.asks[(contract, token_id)];
        if ask.amount != paid {
            Err(ContractError::InvalidBid {  })
        } else if caller != ask.cw20_contract {
            Err(ContractError::Unauthorized {  })
        } else if !segment_ok(ask.owner) {
            Err(ContractError::InvalidAddress {  })
        } else {
            Ok(
                Effect {
                    ledger: LedgerView {
                        custody: l.custody.remove((ask.owner, contract, token_id)),
                        asks: l.asks.remove((contract, token_id)),
                        ..l
                    },
                    response: ResponseView {
                        attributes: seq![
                            attr("execute"@, "nft_purchase"@),
                            attr("token_id"@, token_id),
                            attr("from"@, ask.owner),
                            attr("to"@, buyer),
                        ],
                        messages: seq![
                            TransferView::Nft { contract_addr: contract, recipient: buyer, token_id },
                        ],
                    },
                },
            )
        }
    }
}

/// Taking a token back: `sender` reclaims `token_id` of the NFT contract
/// `contract`. Only the depositor's own key finds the record. The custody
/// record and the ask go together, and the token is sent back to the sender.
pub open spec fn withdraw_nft(
    l: LedgerView,
    sender: Seq<char>,
    contract: Seq<char>,
    token_id: Seq<char>,
) -> Result<Effect, ContractError> {
    if !segment_ok(sender) || !segment_ok(contract) {
        Err(ContractError::InvalidAddress {  })
    } else if !l.custody.contains_key((sender, contract, token_id)) {
        Err(ContractError::NoCw721ToWithdraw {  })
    } else {
        Ok(
            Effect {
                ledger: LedgerView {
                    custody: l.custody.remove((sender, contract, token_id)),
                    asks: l.asks.remove((contract, token_id)),
                    ..l
                },
                response: ResponseView {
                    attributes: seq![
                        attr("execute"@, "cw721_withdraw"@),
                        attr("token_id"@, token_id),
                        attr("receiver_address"@, sender),
                    ],
                    messages: seq![
                        TransferView::Nft { contract_addr: contract, recipient: sender, token_id },
                    ],
                },
            },
        )
    }
}

/// The coin record after `amount` more of `denom` came in for `owner`: a first
/// deposit opens the record with a count of one, a later one adds to both.
pub open spec fn coin_credited(
    held: Option<DepositView>,
    owner: Seq<char>,
    denom: Seq<char>,
    amount: nat,
) -> DepositView {
    match held {
        Some(d) => DepositView { amount: d.amount + amount, count: d.count + 1, ..d },
        None => DepositView { owner, denom, amount, count: 1 },
    }
}

/// Whether a record of the given balance and count can take `amount` more
/// without leaving the range of its integers.
pub open spec fn credit_fits(held_amount: nat, held_count: nat, amount: nat) -> bool {
    held_amount + amount <= u128::MAX && held_count + 1 <= u64::MAX
}

/// Whether a record of the given balance and count can give `amount`: it has
/// that much, and a deposit left to count down.
pub open spec fn debit_fits(held_amount: nat, held_count: nat, amount: nat) -> bool {
    held_count > 0 && amount <= held_amount
}

/// The coin record after `amount` went out.
pub open spec fn coin_debited(d: DepositView, amount: nat) -> DepositView {
    DepositView { amount: (d.amount - amount) as nat, count: (d.count - 1) as nat, ..d }
}

/// The token record after `amount` went out.
pub open spec fn token_debited(d: Cw20DepositView, amount: nat) -> Cw20DepositView {
    Cw20DepositView { amount: (d.amount - amount) as nat, count: (d.count - 1) as nat, ..d }
}

/// Depositing coins: `sender` attaches `funds` to the call. Exactly one coin of
/// a positive amount is taken; nothing is sent out.
pub open spec fn deposit_coin(l: LedgerView, sender: Seq<char>, funds: Seq<CoinView>) -> Result<
    Effect,
    ContractError,
> {
    if funds.len() != 1 || funds[0].amount == 0 {
        Err(ContractError::InvalidCoin {  })
    } else if !segment_ok(sender) {
        Err(ContractError::InvalidAddress {  })
    } else {
        let denom = funds[0].denom;
        let amount = funds[0].amount;
        let key = (sender, denom);
        if l.coins.contains_key(key) && !credit_fits(l.coins[key].amount, l.coins[key].count, amount) {
            Err(ContractError::ArithmeticOverflow {  })
        } else {
            let held = if l.coins.contains_key(key) {
                Some(l.coins[key])
            } else {
                None
            };
            Ok(
                Effect {
                    ledger: LedgerView {
                        coins: l.coins.insert(key, coin_credited(held, sender, denom, amount)),
                        ..l
                    },
                    response: ResponseView {
                        attributes: seq![
                            attr("execute"@, "deposit"@),
                            attr("amount"@, decimal(amount)),
                            attr("denom"@, denom),
                        ],
                        messages: Seq::empty(),
                    },
                },
            )
        }
    }
}

/// Withdrawing coins: `sender` takes `amount` of `denom` out. The record stays
/// when its balance reaches zero, and the coins are sent to the sender.
pub open spec fn withdraw_coin(l: LedgerView, sender: Seq<char>, amount: nat, denom: Seq<char>) -> Result<
    Effect,
    ContractError,
> {
    if !segment_ok(sender) {
        Err(ContractError::InvalidAddress {  })
    } else if !l.coins.contains_key((sender, denom)) {
        Err(ContractError::NoDepositFound {  })
    } else {
        let d = l.coins[(sender, denom)];
        if !debit_fits(d.amount, d.count, amount) {
            Err(ContractError::InsufficientBalance {  })
        } else {
            Ok(
                Effect {
                    ledger: LedgerView {
                        coins: l.coins.insert((sender, denom), coin_debited(d, amount)),
                        ..l
                    },
                    response: ResponseView {
                        attributes: seq![
                            attr("execute"@, "withdraw_deposit"@),
                            attr("amount"@, decimal(amount)),
                            attr("denom"@, denom),
                            attr("to"@, sender),
                        ],
                        messages: seq![TransferView::Coins { to_address: sender, denom, amount }],
                    },
                },
            )
        }
    }
}

/// The token record after `amount` more of `contract` came in for `owner`.
pub open spec fn token_credited(
    held: Option<Cw20DepositView>,
    owner: Seq<char>,
    contract: Seq<char>,
    amount: nat,
) -> Cw20DepositView {
    match held {
        Some(d) => Cw20DepositView { amount: d.amount + amount, count: d.count + 1, ..d },
        None => Cw20DepositView { owner, amount, contract, count: 1 },
    }
}

/// Depositing tokens: the token contract `contract` reports `amount` tokens for
/// `owner`. The record is keyed by the contract that calls, whatever the
/// request says of it; nothing is sent out.
pub open spec fn deposit_token(l: LedgerView, contract: Seq<char>, owner: Seq<char>, amount: nat) -> Result<
    Effect,
    ContractError,
> {
    let key = (owner, contract);
    if !segment_ok(owner) {
        Err(ContractError::InvalidAddress {  })
    } else if l.tokens.contains_key(key) && !credit_fits(
        l.tokens[key].amount,
        l.tokens[key].count,
        amount,
    ) {
        Err(ContractError::ArithmeticOverflow {  })
    } else {
        let held = if l.tokens.contains_key(key) {
            Some(l.tokens[key])
        } else {
            None
        };
        Ok(
            Effect {
                ledger: LedgerView {
                    tokens: l.tokens.insert(key, token_credited(held, owner, contract, amount)),
                    ..l
                },
                response: ResponseView {
                    attributes: seq![
                        attr("execute"@, "cw20_deposit"@),
                        attr("owner"@, owner),
                        attr("amount"@, decimal(amount)),
                        attr("contract"@, contract),
                    ],
                    messages: Seq::empty(),
                },
            },
        )
    }
}

/// Withdrawing tokens: the token contract `contract` takes `amount` out of what
/// it holds for `owner`. The record stays when its balance reaches zero. No
/// transfer is asked for: moving the tokens is left to the contract that calls.
pub open spec fn withdraw_token(l: LedgerView, contract: Seq<char>, owner: Seq<char>, amount: nat) -> Result<
    Effect,
    ContractError,
> {
    if !segment_ok(owner) {
        Err(ContractError::InvalidAddress {  })
    } else if !l.tokens.contains_key((owner, contract)) {
        Err(ContractError::NoCw20ToWithdraw {  })
    } else {
        let d = l.tokens[(owner, contract)];
        if !debit_fits(d.amount, d.count, amount) {
            Err(ContractError::InsufficientBalance {  })
        } else {
            Ok(
                Effect {
                    ledger: LedgerView {
                        tokens: l.tokens.insert((owner, contract), token_debited(d, amount)),
                        ..l
                    },
                    response: ResponseView {
                        attributes: seq![
                            attr("execute"@, "withdraw_cw20"@),
                            attr("amount"@, decimal(amount)),
                            attr("from"@, contract),
                            attr("to"@, owner),
                        ],
                        messages: Seq::empty(),
                    },
                },
            )
        }
    }
}

/// What a query may answer. `valid` says that the identities asked for can lead
/// a key, `readable` that every entry of the store reads back, and `entries` are
/// the records under the prefix asked for, by the rest of their key.
///
/// An identity that cannot lead a key is refused with `InvalidAddress`. No
/// record under the prefix gives `NotFound`. Otherwise the answer lists every
/// record under the prefix once, in ascending key order. `Std` is the failure of
/// a store that holds an entry which does not read back.
pub open spec fn query_outcome<V>(
    outcome: Result<Seq<V>, ContractError>,
    valid: bool,
    readable: bool,
    entries: Map<Seq<char>, V>,
) -> bool {
    match outcome {
        Ok(found) => valid && found.len() > 0 && exists|keys: Seq<Seq<char>>|
            lists_all(entries, keys, found),
        Err(ContractError::InvalidAddress {  }) => !valid,
        Err(ContractError::NotFound {  }) => valid && forall|k: Seq<char>|
            !entries.contains_key(k),
        Err(ContractError::Std(_)) => valid && !readable,
        Err(_) => false,
    }
}

/// A call on the engine, by what it asks for.
pub enum Call {
    DepositCoin { sender: Seq<char>, funds: Seq<CoinView> },
    WithdrawCoin { sender: Seq<char>, amount: nat, denom: Seq<char> },
    DepositToken { contract: Seq<char>, owner: Seq<char>, amount: nat },
    WithdrawToken { contract: Seq<char>, owner: Seq<char>, amount: nat },
    ListForSale {
        contract: Seq<char>,
        owner: Seq<char>,
        token_id: Seq<char>,
        cw20_contract: Seq<char>,
        amount: nat,
    },
    Purchase {
        caller: Seq<char>,
        contract: Seq<char>,
        token_id: Seq<char>,
        buyer: Seq<char>,
        paid: nat,
    },
    WithdrawNft { sender: Seq<char>, contract: Seq<char>, token_id: Seq<char> },
}

/// What a call is meant to do on a ledger.
pub open spec fn planned(l: LedgerView, call: Call) -> Result<Effect, ContractError> {
    match call {
        Call::DepositCoin { sender, funds } => deposit_coin(l, sender, funds),
        Call::WithdrawCoin { sender, amount, denom } => withdraw_coin(l, sender, amount, denom),
        Call::DepositToken { contract, owner, amount } => deposit_token(l, contract, owner, amount),
        Call::WithdrawToken { contract, owner, amount } => withdraw_token(
            l,
            contract,
            owner,
            amount,
        ),
        Call::ListForSale { contract, owner, token_id, cw20_contract, amount } => list_for_sale(
            l,
            contract,
            owner,
            token_id,
            cw20_contract,
            amount,
        ),
        Call::Purchase { caller, contract, token_id, buyer, paid } => purchase(
            l,
            caller,
            contract,
            token_id,
            buyer,
            paid,
        ),
        Call::WithdrawNft { sender, contract, token_id } => withdraw_nft(
            l,
            sender,
            contract,
            token_id,
        ),
    }
}

/// The ledger after one call: the planned effect in full, or, where the call
/// is refused, the ledger as it was.
pub open spec fn step(l: LedgerView, call: Call) -> LedgerView {
    match planned(l, call) {
        Ok(effect) => effect.ledger,
        Err(_) => l,
    }
}

/// The ledger after a sequence of calls, taken in order.
pub open spec fn run(l: LedgerView, calls: Seq<Call>) -> LedgerView
    decreases calls.len(),
{
    if calls.len() == 0 {
        l
    } else {
        step(run(l, calls.drop_last()), calls.last())
    }
}

/// The consistency that the engine keeps between custody and asks: a token in
/// custody has an ask in its owner's name, an ask has its owner's token in
/// custody, and their keys are keys that the store can hold.
pub open spec fn well_kept(l: LedgerView) -> bool {
    &&& forall|o: Seq<char>, c: Seq<char>, t: Seq<char>| #[trigger]
        l.custody.contains_key((o, c, t)) ==> {
            &&& segment_ok(o)
            &&& segment_ok(c)
            &&& l.asks.contains_key((c, t))
            &&& l.asks[(c, t)].owner == o
        }
    &&& forall|c: Seq<char>, t: Seq<char>| #[trigger]
        l.asks.contains_key((c, t)) ==> {
            &&& segment_ok(c)
            &&& l.custody.contains_key((l.asks[(c, t)].owner, c, t))
        }
}

/// The coins of `denom` held for `owner`.
pub open spec fn coin_balance(l: LedgerView, owner: Seq<char>, denom: Seq<char>) -> nat {
    if l.coins.contains_key((owner, denom)) {
        l.coins[(owner, denom)].amount
    } else {
        0
    }
}

/// The tokens of `contract` held for `owner`.
pub open spec fn token_balance(l: LedgerView, owner: Seq<char>, contract: Seq<char>) -> nat {
    if l.tokens.contains_key((owner, contract)) {
        l.tokens[(owner, contract)].amount
    } else {
        0
    }
}

/// The coins of `denom` that a call puts into the deposit of `owner`.
pub open spec fn coins_in(l: LedgerView, call: Call, owner: Seq<char>, denom: Seq<char>) -> nat {
    match call {
        Call::DepositCoin { sender, funds } => if planned(l, call) is Ok && sender == owner
            && funds[0].denom == denom {
            funds[0].amount
        } else {
            0
        },
        _ => 0,
    }
}

/// The coins of `denom` that a call pays out of the deposit of `owner`.
pub open spec fn coins_out(l: LedgerView, call: Call, owner: Seq<char>, denom: Seq<char>) -> nat {
    match call {
        Call::WithdrawCoin { sender, amount, denom: d } => if planned(l, call) is Ok && sender == owner
            && d == denom {
            amount
        } else {
            0
        },
        _ => 0,
    }
}

/// The tokens of `contract` that a call puts into the deposit of `owner`.
pub open spec fn tokens_in(l: LedgerView, call: Call, owner: Seq<char>, contract: Seq<char>) -> nat {
    match call {
        Call::DepositToken { contract: c, owner: o, amount } => if planned(l, call) is Ok && o == owner
            && c == contract {
            amount
        } else {
            0
        },
        _ => 0,
    }
}

/// The tokens of `contract` that a call takes out of the deposit of `owner`.
pub open spec fn tokens_out(l: LedgerView, call: Call, owner: Seq<char>, contract: Seq<char>) -> nat {
    match call {
        Call::WithdrawToken { contract: c, owner: o, amount } => if planned(l, call) is Ok && o == owner
            && c == contract {
            amount
        } else {
            0
        },
        _ => 0,
    }
}

/// All the coins of `denom` that a run puts into the deposit of `owner`.
pub open spec fn total_coins_in(l: LedgerView, calls: Seq<Call>, owner: Seq<char>, denom: Seq<char>) -> nat
    decreases calls.len(),
{
    if calls.len() == 0 {
        0
    } else {
        total_coins_in(l, calls.drop_last(), owner, denom) + coins_in(
            run(l, calls.drop_last()),
            calls.last(),
            owner,
            denom,
        )
    }
}

/// All the coins of `denom` that a run pays out of the deposit of `owner`.
pub open spec fn total_coins_out(l: LedgerView, calls: Seq<Call>, owner: Seq<char>, denom: Seq<char>) -> nat
    decreases calls.len(),
{
    if calls.len() == 0 {
        0
    } else {
        total_coins_out(l, calls.drop_last(), owner, denom) + coins_out(
            run(l, calls.drop_last()),
            calls.last(),
            owner,
            denom,
        )
    }
}

/// All the tokens of `contract` that a run puts into the deposit of `owner`.
pub open spec fn total_tokens_in(
    l: LedgerView,
    calls: Seq<Call>,
    owner: Seq<char>,
    contract: Seq<char>,
) -> nat
    decreases calls.len(),
{
    if calls.len() == 0 {
        0
    } else {
        total_tokens_in(l, calls.drop_last(), owner, contract) + tokens_in(
            run(l, calls.drop_last()),
            calls.last(),
            owner,
            contract,
        )
    }
}

/// All the tokens of `contract` that a run takes out of the deposit of `owner`.
pub open spec fn total_tokens_out(
    l: LedgerView,
    calls: Seq<Call>,
    owner: Seq<char>,
    contract: Seq<char>,
) -> nat
    decreases calls.len(),
{
    if calls.len() == 0 {
        0
    } else {
        total_tokens_out(l, calls.drop_last(), owner, contract) + tokens_out(
            run(l, calls.drop_last()),
            calls.last(),
            owner,
            contract,
        )
    }
}

} // verus!
