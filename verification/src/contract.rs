//! The escrow engine: the operations on the ledger.

use crate::balance::{credit_coin, credit_token, debit_coin, debit_token, settle};
use crate::error::ContractError;
use crate::model::{carries_out, deposit_coin, deposit_token, list_for_sale, planned, purchase,
    query_outcome, step, well_kept, withdraw_coin, withdraw_nft, withdraw_token, Call};
use crate::msg::{Cw20DepositResponse, Cw20HookMsg, Cw20ReceiveMsg, Cw721DepositResponse, Cw721HookMsg,
    Cw721ReceiveMsg, DepositResponse, ExecuteMsg, InstantiateMsg, MessageInfo, QueryMsg,
    QueryResponse, Response, TransferRequest, TransferView, attr};
use crate::state::{views_of, Coin, Cw20Deposit, Cw721Deposit, Deposit, Offer};
use crate::store::{ask_load, ask_remove, ask_save, coin_deposits, coin_load, coin_range, coin_save,
    cw20_deposits, cw20_load, cw20_range, cw20_save, cw721_deposits, cw721_load, cw721_range,
    cw721_remove, cw721_save, empty_ledger, fits_segment, intact, ledger, listed_keys,
    listed_values, new_memory_storage, segment_ok, under_owner, under_owner_contract};
use crate::text::decimal_text;
use cosmwasm_std::MemoryStorage;
use vstd::prelude::*;
use vstd::string::*;

verus! {

/// A store that holds nothing: the state in which the engine starts.
pub fn empty_store() -> (store: MemoryStorage)
    ensures
        ledger(store) == empty_ledger(),
        well_kept(ledger(store)),
        intact(store),
{
    new_memory_storage()
}

/// Takes a token into custody and lists it for sale. The caller is the NFT
/// contract that holds the token; `owner` is the depositor it names. The custody
/// record and the ask are created together or not at all, and a token that is
/// in custody or listed already is refused.
pub fn execute_cw721_deposit(
    store: &mut MemoryStorage,
    info: MessageInfo,
    owner: String,
    token_id: String,
    cw20_contract: String,
    amount: u128,
) -> (r: Result<Response, ContractError>)
    ensures
        carries_out(
            r,
            list_for_sale(
                ledger(*old(store)),
                info.sender@,
                owner@,
                token_id@,
                cw20_contract@,
                amount as nat,
            ),
            ledger(*old(store)),
            ledger(*final(store)),
        ),
        well_kept(ledger(*old(store))) ==> well_kept(ledger(*final(store))),
        intact(*old(store)) ==> intact(*final(store)),
{
    let contract_addr = info.sender;
    if !fits_segment(owner.as_str()) || !fits_segment(contract_addr.as_str()) {
        return Err(ContractError::InvalidAddress {  });
    }
    if cw721_load(store, owner.as_str(), contract_addr.as_str(), token_id.as_str()).is_some() {
        return Err(ContractError::Cw721AlreadyDeposited {  });
    }
    if ask_load(store, contract_addr.as_str(), token_id.as_str()).is_some() {
        return Err(ContractError::Cw721AlreadyDeposited {  });
    }
    let deposit = Cw721Deposit {
        owner: owner.clone(),
        contract: contract_addr.clone(),
        token_id: token_id.clone(),
    };
    match cw721_save(store, owner.as_str(), contract_addr.as_str(), token_id.as_str(), &deposit) {
        Ok(()) => {},
        Err(e) => {
            return Err(ContractError::Std(e));
        },
    }
    let ask = Offer {
        owner: owner.clone(),
        token_id: token_id.clone(),
        cw721_contract: contract_addr.clone(),
        cw20_contract: cw20_contract.clone(),
        amount,
    };
    match ask_save(store, contract_addr.as_str(), token_id.as_str(), &ask) {
        Ok(()) => {},
        Err(e) => {
            // Both records or neither: the custody record goes again.
            cw721_remove(store, owner.as_str(), contract_addr.as_str(), token_id.as_str());
            return Err(ContractError::Std(e));
        },
    }
    let response = Response::new().add_attribute(
        "execute",
        String::from_str("deposit_cw721"),
    ).add_attribute("owner", owner).add_attribute("cw721_contract", contract_addr).add_attribute(
        "token_id",
        token_id,
    ).add_attribute("cw20_addr", cw20_contract).add_attribute(
        "amount_requested",
        decimal_text(amount),
    );
    assert(response@.attributes =~= list_for_sale(
        ledger(*old(store)),
        info.sender@,
        owner@,
        token_id@,
        cw20_contract@,
        amount as nat,
    )->Ok_0.response.attributes);
    Ok(response)
}

/// Sells a listed token to the buyer named in `cw20_msg`, for exactly the asked
/// price. The caller is the token contract that took the payment, and it must
/// be the one that the ask names as its price token. The custody record and the
/// ask are removed together and the token is sent to the buyer; a payment of
/// any other amount, or through any other contract, changes nothing.
pub fn execute_purchase(
    store: &mut MemoryStorage,
    info: MessageInfo,
    token_id: String,
    cw721_contract: String,
    cw20_msg: &Cw20ReceiveMsg,
) -> (r: Result<Response, ContractError>)
    ensures
        carries_out(
            r,
            purchase(
                ledger(*old(store)),
                info.sender@,
                cw721_contract@,
                token_id@,
                cw20_msg.sender@,
                cw20_msg.amount as nat,
            ),
            ledger(*old(store)),
            ledger(*final(store)),
        ),
        well_kept(ledger(*old(store))) ==> well_kept(ledger(*final(store))),
        intact(*old(store)) ==> intact(*final(store)),
{
    if !fits_segment(cw721_contract.as_str()) {
        return Err(ContractError::InvalidAddress {  });
    }
    match ask_load(store, cw721_contract.as_str(), token_id.as_str()) {
        None => Err(ContractError::NoBidsForTokenID {  }),
        Some(ask) => {
            if ask.amount != cw20_msg.amount {
                return Err(ContractError::InvalidBid {  });
            }
            if !(info.sender == ask.cw20_contract) {
                return Err(ContractError::Unauthorized {  });
            }
            if !fits_segment(ask.owner.as_str()) {
                return Err(ContractError::InvalidAddress {  });
            }
            let msg = TransferRequest::Nft {
                contract_addr: cw721_contract.clone(),
                recipient: cw20_msg.sender.clone(),
                token_id: token_id.clone(),
            };
            cw721_remove(store, ask.owner.as_str(), cw721_contract.as_str(), token_id.as_str());
            ask_remove(store, cw721_contract.as_str(), token_id.as_str());
            let response = Response::new().add_attribute(
                "execute",
                String::from_str("nft_purchase"),
            ).add_attribute("token_id", token_id).add_attribute("from", ask.owner).add_attribute(
                "to",
                cw20_msg.sender.clone(),
            ).add_message(msg);
            let ghost planned = purchase(
                ledger(*old(store)),
                info.sender@,
                cw721_contract@,
                token_id@,
                cw20_msg.sender@,
                cw20_msg.amount as nat,
            )->Ok_0.response;
            assert(response@.attributes =~= planned.attributes);
            assert(response@.messages =~= planned.messages);
            Ok(response)
        },
    }
}

/// Hands a token in custody back to the caller who deposited it. The custody
/// record and the ask for the token are removed together and the token is sent
/// to the caller. A caller who did not deposit the token finds no record.
pub fn try_withdraw_cw721(
    store: &mut MemoryStorage,
    info: MessageInfo,
    cw721_contract: String,
    token_id: String,
) -> (r: Result<Response, ContractError>)
    ensures
        carries_out(
            r,
            withdraw_nft(ledger(*old(store)), info.sender@, cw721_contract@, token_id@),
            ledger(*old(store)),
            ledger(*final(store)),
        ),
        well_kept(ledger(*old(store))) ==> well_kept(ledger(*final(store))),
        intact(*old(store)) ==> intact(*final(store)),
{
    let sender = info.sender;
    if !fits_segment(sender.as_str()) || !fits_segment(cw721_contract.as_str()) {
        return Err(ContractError::InvalidAddress {  });
    }
    match cw721_load(store, sender.as_str(), cw721_contract.as_str(), token_id.as_str()) {
        None => Err(ContractError::NoCw721ToWithdraw {  }),
        Some(_) => {
            cw721_remove(store, sender.as_str(), cw721_contract.as_str(), token_id.as_str());
            ask_remove(store, cw721_contract.as_str(), token_id.as_str());
            let msg = TransferRequest::Nft {
                contract_addr: cw721_contract,
                recipient: sender.clone(),
                token_id: token_id.clone(),
            };
            let response = Response::new().add_attribute(
                "execute",
                String::from_str("cw721_withdraw"),
            ).add_attribute("token_id", token_id).add_attribute(
                "receiver_address",
                sender,
            ).add_message(msg);
            let ghost planned = withdraw_nft(
                ledger(*old(store)),
                info.sender@,
                cw721_contract@,
                token_id@,
            )->Ok_0.response;
            assert(response@.attributes =~= planned.attributes);
            assert(response@.messages =~= planned.messages);
            Ok(response)
        },
    }
}

/// Takes the one coin attached to the call into the caller's deposit of that
/// denomination: a first deposit opens the record, a later one adds to its
/// balance and its count. A sum that does not fit is refused, never wrapped.
pub fn try_deposit(store: &mut MemoryStorage, info: MessageInfo) -> (r: Result<Response, ContractError>)
    ensures
        carries_out(
            r,
            deposit_coin(ledger(*old(store)), info.sender@, views_of(info.funds@)),
            ledger(*old(store)),
            ledger(*final(store)),
        ),
        well_kept(ledger(*old(store))) ==> well_kept(ledger(*final(store))),
        intact(*old(store)) ==> intact(*final(store)),
{
    if info.funds.len() != 1 || info.funds[0].amount == 0 {
        return Err(ContractError::InvalidCoin {  });
    }
    let sender = info.sender;
    if !fits_segment(sender.as_str()) {
        return Err(ContractError::InvalidAddress {  });
    }
    let denom = info.funds[0].denom.clone();
    let amount = info.funds[0].amount;
    let held = coin_load(store, sender.as_str(), denom.as_str());
    let deposit = match credit_coin(held, sender.as_str(), denom.as_str(), amount) {
        Ok(deposit) => deposit,
        Err(e) => {
            return Err(e);
        },
    };
    let saved = coin_save(store, sender.as_str(), denom.as_str(), &deposit);
    let response = Response::new().add_attribute(
        "execute",
        String::from_str("deposit"),
    ).add_attribute("amount", decimal_text(amount)).add_attribute("denom", denom);
    let ghost planned = deposit_coin(
        ledger(*old(store)),
        info.sender@,
        views_of(info.funds@),
    )->Ok_0.response;
    assert(response@.attributes =~= planned.attributes);
    settle(saved, response)
}

/// Pays `amount` of `denom` out of the caller's deposit. The balance and the
/// count go down by checked subtraction, the record stays even at a balance of
/// zero, and one transfer of the coins to the caller is asked for.
pub fn try_withdraw_deposit(
    store: &mut MemoryStorage,
    info: MessageInfo,
    amount: u128,
    denom: String,
) -> (r: Result<Response, ContractError>)
    ensures
        carries_out(
            r,
            withdraw_coin(ledger(*old(store)), info.sender@, amount as nat, denom@),
            ledger(*old(store)),
            ledger(*final(store)),
        ),
        well_kept(ledger(*old(store))) ==> well_kept(ledger(*final(store))),
        intact(*old(store)) ==> intact(*final(store)),
{
    let sender = info.sender;
    if !fits_segment(sender.as_str()) {
        return Err(ContractError::InvalidAddress {  });
    }
    let held = match coin_load(store, sender.as_str(), denom.as_str()) {
        Some(held) => held,
        None => {
            return Err(ContractError::NoDepositFound {  });
        },
    };
    let deposit = match debit_coin(held, amount) {
        Ok(deposit) => deposit,
        Err(e) => {
            return Err(e);
        },
    };
    let msg = TransferRequest::Coins { to_address: sender.clone(), denom: denom.clone(), amount };
    let saved = coin_save(store, sender.as_str(), denom.as_str(), &deposit);
    let response = Response::new().add_attribute(
        "execute",
        String::from_str("withdraw_deposit"),
    ).add_attribute("amount", decimal_text(amount)).add_attribute("denom", denom).add_attribute(
        "to",
        sender,
    ).add_message(msg);
    let ghost planned = withdraw_coin(
        ledger(*old(store)),
        info.sender@,
        amount as nat,
        denom@,
    )->Ok_0.response;
    assert(response@.attributes =~= planned.attributes);
    assert(response@.messages =~= planned.messages);
    settle(saved, response)
}

/// Takes `amount` tokens into the deposit that the calling token contract holds
/// for `owner`: a first deposit opens the record, a later one adds to its
/// balance and its count. A sum that does not fit is refused, never wrapped.
pub fn execute_cw20_deposit(
    store: &mut MemoryStorage,
    info: MessageInfo,
    owner: String,
    amount: u128,
) -> (r: Result<Response, ContractError>)
    ensures
        carries_out(
            r,
            deposit_token(ledger(*old(store)), info.sender@, owner@, amount as nat),
            ledger(*old(store)),
            ledger(*final(store)),
        ),
        well_kept(ledger(*old(store))) ==> well_kept(ledger(*final(store))),
        intact(*old(store)) ==> intact(*final(store)),
{
    let contract_addr = info.sender;
    if !fits_segment(owner.as_str()) {
        return Err(ContractError::InvalidAddress {  });
    }
    let held = cw20_load(store, owner.as_str(), contract_addr.as_str());
    let deposit = match credit_token(held, owner.as_str(), contract_addr.as_str(), amount) {
        Ok(deposit) => deposit,
        Err(e) => {
            return Err(e);
        },
    };
    let saved = cw20_save(store, owner.as_str(), contract_addr.as_str(), &deposit);
    let response = Response::new().add_attribute(
        "execute",
        String::from_str("cw20_deposit"),
    ).add_attribute("owner", owner).add_attribute("amount", decimal_text(amount)).add_attribute(
        "contract",
        contract_addr,
    );
    let ghost planned = deposit_token(
        ledger(*old(store)),
        info.sender@,
        owner@,
        amount as nat,
    )->Ok_0.response;
    assert(response@.attributes =~= planned.attributes);
    settle(saved, response)
}

/// Takes `amount` tokens out of the deposit that the calling token contract
/// holds for `owner`. The balance and the count go down by checked subtraction
/// and the record stays even at a balance of zero. No transfer is asked for.
pub fn try_withdraw_cw20(
    store: &mut MemoryStorage,
    info: MessageInfo,
    owner: String,
    amount: u128,
) -> (r: Result<Response, ContractError>)
    ensures
        carries_out(
            r,
            withdraw_token(ledger(*old(store)), info.sender@, owner@, amount as nat),
            ledger(*old(store)),
            ledger(*final(store)),
        ),
        well_kept(ledger(*old(store))) ==> well_kept(ledger(*final(store))),
        intact(*old(store)) ==> intact(*final(store)),
{
    let contract_addr = info.sender;
    if !fits_segment(owner.as_str()) {
        return Err(ContractError::InvalidAddress {  });
    }
    let held = match cw20_load(store, owner.as_str(), contract_addr.as_str()) {
        Some(held) => held,
        None => {
            return Err(ContractError::NoCw20ToWithdraw {  });
        },
    };
    let deposit = match debit_token(held, amount) {
        Ok(deposit) => deposit,
        Err(e) => {
            return Err(e);
        },
    };
    let saved = cw20_save(store, owner.as_str(), contract_addr.as_str(), &deposit);
    let response = Response::new().add_attribute(
        "execute",
        String::from_str("withdraw_cw20"),
    ).add_attribute("amount", decimal_text(amount)).add_attribute(
        "from",
        contract_addr,
    ).add_attribute("to", owner);
    let ghost planned = withdraw_token(
        ledger(*old(store)),
        info.sender@,
        owner@,
        amount as nat,
    )->Ok_0.response;
    assert(response@.attributes =~= planned.attributes);
    settle(saved, response)
}

/// Lists the coin deposits held for `address`, one for each denomination, in
/// ascending order of the denomination. An owner with no deposit is `NotFound`.
pub fn try_query_deposit(store: &MemoryStorage, address: String) -> (r: Result<
    DepositResponse,
    ContractError,
>)
    ensures
        query_outcome(
            match r {
                Ok(response) => Ok(views_of(response.deposits@)),
                Err(e) => Err(e),
            },
            segment_ok(address@),
            intact(*store),
            under_owner(coin_deposits(*store), address@),
        ),
{
    if !fits_segment(address.as_str()) {
        return Err(ContractError::InvalidAddress {  });
    }
    let found = match coin_range(store, address.as_str()) {
        Ok(found) => found,
        Err(e) => {
            return Err(ContractError::Std(e));
        },
    };
    if found.len() == 0 {
        assert forall|k: Seq<char>|
            !under_owner(coin_deposits(*store), address@).contains_key(k) by {
            assert(!listed_keys(found@).contains(k));
        }
        return Err(ContractError::NotFound {  });
    }
    let mut deposits: Vec<Deposit> = Vec::new();
    let mut i: usize = 0;
    while i < found.len()
        invariant
            i <= found.len(),
            deposits@.len() == i,
            forall|j: int| 0 <= j < i ==> (#[trigger] deposits@[j])@ == found@[j].1@,
        decreases found.len() - i,
    {
        let d = &found[i].1;
        deposits.push(
            Deposit {
                owner: d.owner.clone(),
                amount: Coin { denom: d.amount.denom.clone(), amount: d.amount.amount },
                count: d.count,
            },
        );
        i = i + 1;
    }
    assert(views_of(deposits@) =~= listed_values(found@));
    Ok(DepositResponse { deposits })
}

/// Lists the token deposits held for `address`, one for each token contract, in
/// ascending order of the contract. An owner with no deposit is `NotFound`.
pub fn try_query_cw20_deposit(store: &MemoryStorage, address: String) -> (r: Result<
    Cw20DepositResponse,
    ContractError,
>)
    ensures
        query_outcome(
            match r {
                Ok(response) => Ok(views_of(response.deposits@)),
                Err(e) => Err(e),
            },
            segment_ok(address@),
            intact(*store),
            under_owner(cw20_deposits(*store), address@),
        ),
{
    if !fits_segment(address.as_str()) {
        return Err(ContractError::InvalidAddress {  });
    }
    let found = match cw20_range(store, address.as_str()) {
        Ok(found) => found,
        Err(e) => {
            return Err(ContractError::Std(e));
        },
    };
    if found.len() == 0 {
        assert forall|k: Seq<char>|
            !under_owner(cw20_deposits(*store), address@).contains_key(k) by {
            assert(!listed_keys(found@).contains(k));
        }
        return Err(ContractError::NotFound {  });
    }
    let mut deposits: Vec<Cw20Deposit> = Vec::new();
    let mut i: usize = 0;
    while i < found.len()
        invariant
            i <= found.len(),
            deposits@.len() == i,
            forall|j: int| 0 <= j < i ==> (#[trigger] deposits@[j])@ == found@[j].1@,
        decreases found.len() - i,
    {
        let d = &found[i].1;
        deposits.push(
            Cw20Deposit {
                owner: d.owner.clone(),
                amount: d.amount,
                contract: d.contract.clone(),
                count: d.count,
            },
        );
        i = i + 1;
    }
    assert(views_of(deposits@) =~= listed_values(found@));
    Ok(Cw20DepositResponse { deposits })
}

/// Lists the tokens of the NFT contract `contract` held in custody for
/// `address`, in ascending order of the token id. None in custody is `NotFound`.
pub fn try_query_cw721_deposit(store: &MemoryStorage, address: String, contract: String) -> (r:
    Result<Cw721DepositResponse, ContractError>)
    ensures
        query_outcome(
            match r {
                Ok(response) => Ok(views_of(response.deposits@)),
                Err(e) => Err(e),
            },
            segment_ok(address@) && segment_ok(contract@),
            intact(*store),
            under_owner_contract(cw721_deposits(*store), address@, contract@),
        ),
{
    if !fits_segment(address.as_str()) || !fits_segment(contract.as_str()) {
        return Err(ContractError::InvalidAddress {  });
    }
    let found = match cw721_range(store, address.as_str(), contract.as_str()) {
        Ok(found) => found,
        Err(e) => {
            return Err(ContractError::Std(e));
        },
    };
    if found.len() == 0 {
        assert forall|k: Seq<char>|
            !under_owner_contract(cw721_deposits(*store), address@, contract@).contains_key(
                k,
            ) by {
            assert(!listed_keys(found@).contains(k));
        }
        return Err(ContractError::NotFound {  });
    }
    let mut deposits: Vec<Cw721Deposit> = Vec::new();
    let mut i: usize = 0;
    while i < found.len()
        invariant
            i <= found.len(),
            deposits@.len() == i,
            forall|j: int| 0 <= j < i ==> (#[trigger] deposits@[j])@ == found@[j].1@,
        decreases found.len() - i,
    {
        let d = &found[i].1;
        deposits.push(
            Cw721Deposit {
                owner: d.owner.clone(),
                contract: d.contract.clone(),
                token_id: d.token_id.clone(),
            },
        );
        i = i + 1;
    }
    assert(views_of(deposits@) =~= listed_values(found@));
    Ok(Cw721DepositResponse { deposits })
}

/// The call that a token contract's notice stands for.
pub open spec fn cw20_call(info: MessageInfo, cw20_msg: Cw20ReceiveMsg) -> Call {
    match cw20_msg.msg {
        Cw20HookMsg::Deposit { owner, amount } => Call::DepositToken {
            contract: info.sender@,
            owner: owner@,
            amount: amount as nat,
        },
        Cw20HookMsg::Purchase { token_id, cw721_contract } => Call::Purchase {
            caller: info.sender@,
            contract: cw721_contract@,
            token_id: token_id@,
            buyer: cw20_msg.sender@,
            paid: cw20_msg.amount as nat,
        },
    }
}

/// The call that an NFT contract's notice stands for.
pub open spec fn cw721_call(info: MessageInfo, cw721_msg: Cw721ReceiveMsg) -> Call {
    match cw721_msg.msg {
        Cw721HookMsg::Deposit { owner, token_id, cw20_contract, amount } => Call::ListForSale {
            contract: info.sender@,
            owner: owner@,
            token_id: token_id@,
            cw20_contract: cw20_contract@,
            amount: amount as nat,
        },
    }
}

/// The call that a message stands for when the caller in `info` sends it.
pub open spec fn call_of(info: MessageInfo, msg: ExecuteMsg) -> Call {
    match msg {
        ExecuteMsg::Receive(cw20_msg) => cw20_call(info, cw20_msg),
        ExecuteMsg::WithdrawCw20 { owner, amount } => Call::WithdrawToken {
            contract: info.sender@,
            owner: owner@,
            amount: amount as nat,
        },
        ExecuteMsg::Deposit {  } => Call::DepositCoin {
            sender: info.sender@,
            funds: views_of(info.funds@),
        },
        ExecuteMsg::Withdraw { amount, denom } => Call::WithdrawCoin {
            sender: info.sender@,
            amount: amount as nat,
            denom: denom@,
        },
        ExecuteMsg::ReceiveNft(cw721_msg) => cw721_call(info, cw721_msg),
        ExecuteMsg::WithdrawNft { cw721_contract, token_id } => Call::WithdrawNft {
            sender: info.sender@,
            contract: cw721_contract@,
            token_id: token_id@,
        },
    }
}

/// Acknowledges the start of the engine. It keeps no state of its own.
pub fn instantiate(_info: MessageInfo, _msg: InstantiateMsg) -> (r: Result<Response, ContractError>)
    ensures
        r is Ok,
        r->Ok_0@.attributes == seq![attr("method"@, "instantiate"@)],
        r->Ok_0@.messages == Seq::<TransferView>::empty(),
{
    let response = Response::new().add_attribute("method", String::from_str("instantiate"));
    assert(response@.attributes =~= seq![attr("method"@, "instantiate"@)]);
    Ok(response)
}

/// Carries out the operation that `msg` names, on behalf of the caller in `info`.
pub fn execute(store: &mut MemoryStorage, info: MessageInfo, msg: ExecuteMsg) -> (r: Result<
    Response,
    ContractError,
>)
    ensures
        carries_out(
            r,
            planned(ledger(*old(store)), call_of(info, msg)),
            ledger(*old(store)),
            ledger(*final(store)),
        ),
        ledger(*final(store)) == step(ledger(*old(store)), call_of(info, msg)),
        well_kept(ledger(*old(store))) ==> well_kept(ledger(*final(store))),
        intact(*old(store)) ==> intact(*final(store)),
{
    match msg {
        ExecuteMsg::Receive(cw20_msg) => receive_cw20(store, info, cw20_msg),
        ExecuteMsg::WithdrawCw20 { owner, amount } => try_withdraw_cw20(store, info, owner, amount),
        ExecuteMsg::Deposit {  } => try_deposit(store, info),
        ExecuteMsg::Withdraw { amount, denom } => try_withdraw_deposit(store, info, amount, denom),
        ExecuteMsg::ReceiveNft(cw721_msg) => receive_cw721(store, info, cw721_msg),
        ExecuteMsg::WithdrawNft { cw721_contract, token_id } => try_withdraw_cw721(
            store,
            info,
            cw721_contract,
            token_id,
        ),
    }
}

/// Carries out what a token contract's notice asks for: a deposit of the tokens
/// it names, or the purchase of a listed token with the amount it reports.
pub fn receive_cw20(store: &mut MemoryStorage, info: MessageInfo, cw20_msg: Cw20ReceiveMsg) -> (r:
    Result<Response, ContractError>)
    ensures
        carries_out(
            r,
            planned(ledger(*old(store)), cw20_call(info, cw20_msg)),
            ledger(*old(store)),
            ledger(*final(store)),
        ),
        well_kept(ledger(*old(store))) ==> well_kept(ledger(*final(store))),
        intact(*old(store)) ==> intact(*final(store)),
{
    match &cw20_msg.msg {
        Cw20HookMsg::Deposit { owner, amount } => execute_cw20_deposit(
            store,
            info,
            owner.clone(),
            *amount,
        ),
        Cw20HookMsg::Purchase { token_id, cw721_contract } => execute_purchase(
            store,
            info,
            token_id.clone(),
            cw721_contract.clone(),
            &cw20_msg,
        ),
    }
}

/// Carries out what an NFT contract's notice asks for: taking the token into
/// custody and listing it for sale.
pub fn receive_cw721(store: &mut MemoryStorage, info: MessageInfo, cw721_msg: Cw721ReceiveMsg) -> (r:
    Result<Response, ContractError>)
    ensures
        carries_out(
            r,
            planned(ledger(*old(store)), cw721_call(info, cw721_msg)),
            ledger(*old(store)),
            ledger(*final(store)),
        ),
        well_kept(ledger(*old(store))) ==> well_kept(ledger(*final(store))),
        intact(*old(store)) ==> intact(*final(store)),
{
    match cw721_msg.msg {
        Cw721HookMsg::Deposit { owner, token_id, cw20_contract, amount } => execute_cw721_deposit(
            store,
            info,
            owner,
            token_id,
            cw20_contract,
            amount,
        ),
    }
}

/// What `query` owes: the contract of the query that the message names, with
/// the answer in the variant that goes with it.
pub open spec fn queries(r: Result<QueryResponse, ContractError>, store: MemoryStorage, msg: QueryMsg) -> bool {
    match msg {
        QueryMsg::GetCw20Deposit { address } => query_outcome(
            match r {
                Ok(response) => Ok(views_of(response->Cw20Deposits_0.deposits@)),
                Err(e) => Err(e),
            },
            segment_ok(address@),
            intact(store),
            under_owner(cw20_deposits(store), address@),
        ) && (r is Ok ==> r->Ok_0 is Cw20Deposits),
        QueryMsg::GetDeposits { address } => query_outcome(
            match r {
                Ok(response) => Ok(views_of(response->Deposits_0.deposits@)),
                Err(e) => Err(e),
            },
            segment_ok(address@),
            intact(store),
            under_owner(coin_deposits(store), address@),
        ) && (r is Ok ==> r->Ok_0 is Deposits),
        QueryMsg::GetCw721Deposit { address, contract } => query_outcome(
            match r {
                Ok(response) => Ok(views_of(response->Cw721Deposits_0.deposits@)),
                Err(e) => Err(e),
            },
            segment_ok(address@) && segment_ok(contract@),
            intact(store),
            under_owner_contract(cw721_deposits(store), address@, contract@),
        ) && (r is Ok ==> r->Ok_0 is Cw721Deposits),
    }
}

/// Answers the query that `msg` names. Nothing is changed.
pub fn query(store: &MemoryStorage, msg: QueryMsg) -> (r: Result<QueryResponse, ContractError>)
    ensures
        queries(r, *store, msg),
{
    match msg {
        QueryMsg::GetCw20Deposit { address } => match try_query_cw20_deposit(store, address) {
            Ok(response) => Ok(QueryResponse::Cw20Deposits(response)),
            Err(e) => Err(e),
        },
        QueryMsg::GetDeposits { address } => match try_query_deposit(store, address) {
            Ok(response) => Ok(QueryResponse::Deposits(response)),
            Err(e) => Err(e),
        },
        QueryMsg::GetCw721Deposit { address, contract } => match try_query_cw721_deposit(
            store,
            address,
            contract,
        ) {
            Ok(response) => Ok(QueryResponse::Cw721Deposits(response)),
            Err(e) => Err(e),
        },
    }
}

} // verus!
