//! What holds of the engine over every ledger and every sequence of calls.

use crate::error::ContractError;
use crate::model::{coin_balance, coins_in, coins_out, list_for_sale, purchase, query_outcome, run,
    step, token_balance, tokens_in, tokens_out, total_coins_in, total_coins_out, total_tokens_in,
    total_tokens_out, well_kept, withdraw_coin, withdraw_token, Call, Effect};
use crate::msg::TransferView;
use crate::state::{CoinView, Cw20DepositView, Cw721DepositView, DepositView, OfferView};
use crate::store::{bytes_lt, empty_ledger, key_lt, lists_all, segment_ok, under_owner, LedgerView};
use vstd::prelude::*;

verus! {

/// One call changes the coins held for an owner by what it puts in less what
/// it pays out, and by nothing else.
pub proof fn lemma_coin_step_conserves(l: LedgerView, call: Call, owner: Seq<char>, denom: Seq<char>)
    ensures
        coin_balance(step(l, call), owner, denom) + coins_out(l, call, owner, denom) == coin_balance(
            l,
            owner,
            denom,
        ) + coins_in(l, call, owner, denom),
{
}

/// Conservation of coins: after any sequence of calls, whoever makes them and
/// whatever else they touch, the coins of one denomination held for one owner
/// are what was held at the start, plus all that was deposited, less all that
/// was withdrawn. A balance is a natural number, so withdrawals never exceed
/// what came in.
pub proof fn lemma_coins_conserved(
    l: LedgerView,
    calls: Seq<Call>,
    owner: Seq<char>,
    denom: Seq<char>,
)
    ensures
        coin_balance(run(l, calls), owner, denom) + total_coins_out(l, calls, owner, denom)
            == coin_balance(l, owner, denom) + total_coins_in(l, calls, owner, denom),
    decreases calls.len(),
{
    if calls.len() > 0 {
        lemma_coins_conserved(l, calls.drop_last(), owner, denom);
        lemma_coin_step_conserves(run(l, calls.drop_last()), calls.last(), owner, denom);
    }
}

/// One call changes the tokens held for an owner by what it puts in less what
/// it takes out, and by nothing else.
pub proof fn lemma_token_step_conserves(
    l: LedgerView,
    call: Call,
    owner: Seq<char>,
    contract: Seq<char>,
)
    ensures
        token_balance(step(l, call), owner, contract) + tokens_out(l, call, owner, contract)
            == token_balance(l, owner, contract) + tokens_in(l, call, owner, contract),
{
}

/// Conservation of tokens: after any sequence of calls, the tokens of one token
/// contract held for one owner are what was held at the start, plus all that
/// was deposited, less all that was withdrawn.
pub proof fn lemma_tokens_conserved(
    l: LedgerView,
    calls: Seq<Call>,
    owner: Seq<char>,
    contract: Seq<char>,
)
    ensures
        token_balance(run(l, calls), owner, contract) + total_tokens_out(l, calls, owner, contract)
            == token_balance(l, owner, contract) + total_tokens_in(l, calls, owner, contract),
    decreases calls.len(),
{
    if calls.len() > 0 {
        lemma_tokens_conserved(l, calls.drop_last(), owner, contract);
        lemma_token_step_conserves(run(l, calls.drop_last()), calls.last(), owner, contract);
    }
}

/// A withdrawal of more coins than are held fails, and the ledger stays as it was.
pub proof fn lemma_coin_overdraw_refused(
    l: LedgerView,
    sender: Seq<char>,
    amount: nat,
    denom: Seq<char>,
)
    requires
        amount > coin_balance(l, sender, denom),
    ensures
        withdraw_coin(l, sender, amount, denom) is Err,
        segment_ok(sender) && l.coins.contains_key((sender, denom)) ==> withdraw_coin(
            l,
            sender,
            amount,
            denom,
        ) == Err::<Effect, ContractError>(ContractError::InsufficientBalance {  }),
        step(l, Call::WithdrawCoin { sender, amount, denom }) == l,
{
}

/// A withdrawal of more tokens than are held fails, and the ledger stays as it was.
pub proof fn lemma_token_overdraw_refused(
    l: LedgerView,
    contract: Seq<char>,
    owner: Seq<char>,
    amount: nat,
)
    requires
        amount > token_balance(l, owner, contract),
    ensures
        withdraw_token(l, contract, owner, amount) is Err,
        segment_ok(owner) && l.tokens.contains_key((owner, contract)) ==> withdraw_token(
            l,
            contract,
            owner,
            amount,
        ) == Err::<Effect, ContractError>(ContractError::InsufficientBalance {  }),
        step(l, Call::WithdrawToken { contract, owner, amount }) == l,
{
}

/// The ledger that holds nothing is well kept.
pub proof fn lemma_empty_well_kept()
    ensures
        well_kept(empty_ledger()),
{
}

/// No call breaks the consistency between custody and asks.
pub proof fn lemma_step_keeps(l: LedgerView, call: Call)
    requires
        well_kept(l),
    ensures
        well_kept(step(l, call)),
{
}

/// No sequence of calls breaks the consistency between custody and asks: an ask
/// stands for a token exactly as long as the token is in custody, from the
/// listing that created both to the purchase or the withdrawal that removes both.
pub proof fn lemma_run_keeps(l: LedgerView, calls: Seq<Call>)
    requires
        well_kept(l),
    ensures
        well_kept(run(l, calls)),
    decreases calls.len(),
{
    if calls.len() > 0 {
        lemma_run_keeps(l, calls.drop_last());
        lemma_step_keeps(run(l, calls.drop_last()), calls.last());
    }
}

/// In a well-kept ledger an ask stands for a token if and only if some owner
/// has that token in custody.
pub proof fn lemma_ask_iff_custody(l: LedgerView, contract: Seq<char>, token_id: Seq<char>)
    requires
        well_kept(l),
    ensures
        l.asks.contains_key((contract, token_id)) <==> exists|owner: Seq<char>|
            l.custody.contains_key((owner, contract, token_id)),
{
    if l.asks.contains_key((contract, token_id)) {
        assert(l.custody.contains_key((l.asks[(contract, token_id)].owner, contract, token_id)));
    }
}

/// In a well-kept ledger a token is in custody for at most one owner.
pub proof fn lemma_custody_unique(
    l: LedgerView,
    first: Seq<char>,
    second: Seq<char>,
    contract: Seq<char>,
    token_id: Seq<char>,
)
    requires
        well_kept(l),
        l.custody.contains_key((first, contract, token_id)),
        l.custody.contains_key((second, contract, token_id)),
    ensures
        first == second,
{
}

/// Listing a token that is in custody, for whichever owner, is refused as
/// already deposited, and the ledger stays as it was.
pub proof fn lemma_relisting_refused(
    l: LedgerView,
    holder: Seq<char>,
    contract: Seq<char>,
    owner: Seq<char>,
    token_id: Seq<char>,
    cw20_contract: Seq<char>,
    amount: nat,
)
    requires
        well_kept(l),
        l.custody.contains_key((holder, contract, token_id)),
        segment_ok(owner),
    ensures
        list_for_sale(l, contract, owner, token_id, cw20_contract, amount) == Err::<
            Effect,
            ContractError,
        >(ContractError::Cw721AlreadyDeposited {  }),
        step(l, Call::ListForSale { contract, owner, token_id, cw20_contract, amount }) == l,
{
}

/// A purchase goes through only at the asked price. Where an ask stands, a
/// payment of any other amount is refused as an invalid bid, whoever reports
/// it, and the ledger, with the custody record, the ask and every balance,
/// stays as it was.
pub proof fn lemma_exact_price(
    l: LedgerView,
    caller: Seq<char>,
    contract: Seq<char>,
    token_id: Seq<char>,
    buyer: Seq<char>,
    paid: nat,
)
    ensures
        purchase(l, caller, contract, token_id, buyer, paid) is Ok ==> l.asks.contains_key(
            (contract, token_id),
        ) && l.asks[(contract, token_id)].amount == paid,
        segment_ok(contract) && l.asks.contains_key((contract, token_id)) && l.asks[(
            contract,
            token_id,
        )].amount != paid ==> purchase(l, caller, contract, token_id, buyer, paid) == Err::<
            Effect,
            ContractError,
        >(ContractError::InvalidBid {  }),
        purchase(l, caller, contract, token_id, buyer, paid) is Err ==> step(
            l,
            Call::Purchase { caller, contract, token_id, buyer, paid },
        ) == l,
{
}

/// A payment counts only when it comes through the price token of the ask. The
/// asked amount coming through any other contract is refused as unauthorized, and
/// the ledger stays as it was: the token is neither sold nor sent.
pub proof fn lemma_price_token_only(
    l: LedgerView,
    caller: Seq<char>,
    contract: Seq<char>,
    token_id: Seq<char>,
    buyer: Seq<char>,
    paid: nat,
)
    ensures
        purchase(l, caller, contract, token_id, buyer, paid) is Ok ==> l.asks[(
            contract,
            token_id,
        )].cw20_contract == caller,
        segment_ok(contract) && l.asks.contains_key((contract, token_id)) && l.asks[(
            contract,
            token_id,
        )].amount == paid && l.asks[(contract, token_id)].cw20_contract != caller ==> purchase(
            l,
            caller,
            contract,
            token_id,
            buyer,
            paid,
        ) == Err::<Effect, ContractError>(ContractError::Unauthorized {  }) && step(
            l,
            Call::Purchase { caller, contract, token_id, buyer, paid },
        ) == l,
{
}

/// In a well-kept ledger a payment of the asked price through the price token
/// buys: the custody record and the ask are gone, nothing else changes, and
/// the token is on its way to the buyer.
pub proof fn lemma_asked_price_buys(
    l: LedgerView,
    contract: Seq<char>,
    token_id: Seq<char>,
    buyer: Seq<char>,
)
    requires
        well_kept(l),
        l.asks.contains_key((contract, token_id)),
    ensures
        ({
            let ask = l.asks[(contract, token_id)];
            let bought = purchase(l, ask.cw20_contract, contract, token_id, buyer, ask.amount);
            &&& bought is Ok
            &&& !bought->Ok_0.ledger.asks.contains_key((contract, token_id))
            &&& forall|owner: Seq<char>|
                !bought->Ok_0.ledger.custody.contains_key((owner, contract, token_id))
            &&& bought->Ok_0.ledger.coins == l.coins
            &&& bought->Ok_0.ledger.tokens == l.tokens
            &&& bought->Ok_0.response.messages == seq![
                TransferView::Nft { contract_addr: contract, recipient: buyer, token_id },
            ]
        }),
{
    let ask = l.asks[(contract, token_id)];
    assert(l.custody.contains_key((ask.owner, contract, token_id)));
}

/// In a well-kept ledger, listing a token that nobody has in custody goes
/// through, for identities that can lead a key. It creates the custody record
/// and the ask together, both in the owner's name, and nothing else: every
/// other custody record and ask, and every balance, is as before, and no
/// transfer is asked for.
pub proof fn lemma_listing_creates_both(
    l: LedgerView,
    contract: Seq<char>,
    owner: Seq<char>,
    token_id: Seq<char>,
    cw20_contract: Seq<char>,
    amount: nat,
)
    requires
        well_kept(l),
        segment_ok(owner),
        segment_ok(contract),
        forall|holder: Seq<char>| !l.custody.contains_key((holder, contract, token_id)),
    ensures
        ({
            let listed = list_for_sale(l, contract, owner, token_id, cw20_contract, amount);
            &&& listed is Ok
            &&& listed->Ok_0.ledger.custody == l.custody.insert(
                (owner, contract, token_id),
                Cw721DepositView { owner, contract, token_id },
            )
            &&& listed->Ok_0.ledger.asks == l.asks.insert(
                (contract, token_id),
                OfferView { owner, token_id, cw721_contract: contract, cw20_contract, amount },
            )
            &&& listed->Ok_0.ledger.coins == l.coins
            &&& listed->Ok_0.ledger.tokens == l.tokens
            &&& listed->Ok_0.response.messages == Seq::<TransferView>::empty()
            &&& well_kept(listed->Ok_0.ledger)
        }),
{
    if l.asks.contains_key((contract, token_id)) {
        assert(l.custody.contains_key((l.asks[(contract, token_id)].owner, contract, token_id)));
    }
    lemma_step_keeps(l, Call::ListForSale { contract, owner, token_id, cw20_contract, amount });
}

/// No byte string comes before itself.
pub proof fn lemma_bytes_lt_irreflexive(a: Seq<u8>)
    ensures
        !bytes_lt(a, a),
    decreases a.len(),
{
    if a.len() > 0 {
        lemma_bytes_lt_irreflexive(a.drop_first());
    }
}

/// A listing of entries that hold one key alone has one record: the entry at that key.
pub proof fn lemma_single_listing<V>(
    entries: Map<Seq<char>, V>,
    keys: Seq<Seq<char>>,
    found: Seq<V>,
    key: Seq<char>,
)
    requires
        lists_all(entries, keys, found),
        entries.contains_key(key),
        forall|k: Seq<char>| entries.contains_key(k) ==> k == key,
    ensures
        found == seq![entries[key]],
{
    assert(keys.contains(key));
    if keys.len() >= 2 {
        assert(entries.contains_key(keys[0]));
        assert(entries.contains_key(keys[1]));
        assert(key_lt(keys[0], keys[1]));
        lemma_bytes_lt_irreflexive(vstd::utf8::encode_utf8(key));
    }
    assert(entries.contains_key(keys[0]));
    assert(found =~= seq![entries[key]]);
}

/// Queries between deposits of coins, on a store that reads back in full. An
/// owner with no record is not found. After one deposit of `first` the answer is
/// one record with that amount and a count of one. After a second deposit, of
/// `second` at the same key, it is one record with the sum and a count of two.
pub proof fn lemma_coin_queries(
    l: LedgerView,
    owner: Seq<char>,
    denom: Seq<char>,
    first: nat,
    second: nat,
    at_start: Result<Seq<DepositView>, ContractError>,
    after_one: Result<Seq<DepositView>, ContractError>,
    after_two: Result<Seq<DepositView>, ContractError>,
)
    requires
        segment_ok(owner),
        forall|k: Seq<char>| !l.coins.contains_key((owner, k)),
        0 < first,
        0 < second,
        first + second <= u128::MAX,
        query_outcome(at_start, true, true, under_owner(l.coins, owner)),
        query_outcome(
            after_one,
            true,
            true,
            under_owner(
                run(l, seq![deposit_step(owner, denom, first)]).coins,
                owner,
            ),
        ),
        query_outcome(
            after_two,
            true,
            true,
            under_owner(
                run(
                    l,
                    seq![deposit_step(owner, denom, first), deposit_step(owner, denom, second)],
                ).coins,
                owner,
            ),
        ),
    ensures
        at_start == Err::<Seq<DepositView>, ContractError>(ContractError::NotFound {  }),
        after_one == Ok::<Seq<DepositView>, ContractError>(
            seq![DepositView { owner, denom, amount: first, count: 1 }],
        ),
        after_two == Ok::<Seq<DepositView>, ContractError>(
            seq![DepositView { owner, denom, amount: first + second, count: 2 }],
        ),
{
    let one = seq![deposit_step(owner, denom, first)];
    let two = seq![deposit_step(owner, denom, first), deposit_step(owner, denom, second)];
    assert(one.drop_last() =~= Seq::<Call>::empty());
    assert(two.drop_last() =~= one);
    let l1 = run(l, one);
    let l2 = run(l, two);
    assert(run(l, Seq::<Call>::empty()) == l);
    assert(l1 == step(l, deposit_step(owner, denom, first)));
    assert(l2 == step(l1, deposit_step(owner, denom, second)));
    let entries1 = under_owner(l1.coins, owner);
    let entries2 = under_owner(l2.coins, owner);
    assert(entries1.contains_key(denom));
    assert(entries2.contains_key(denom));
    assert(!under_owner(l.coins, owner).contains_key(denom));
    if at_start is Ok {
        let keys = choose|keys: Seq<Seq<char>>|
            lists_all(under_owner(l.coins, owner), keys, at_start->Ok_0);
        assert(under_owner(l.coins, owner).contains_key(keys[0]));
    }
    assert(after_one is Ok);
    assert(after_two is Ok);
    let keys1 = choose|keys: Seq<Seq<char>>| lists_all(entries1, keys, after_one->Ok_0);
    lemma_single_listing(entries1, keys1, after_one->Ok_0, denom);
    let keys2 = choose|keys: Seq<Seq<char>>| lists_all(entries2, keys, after_two->Ok_0);
    lemma_single_listing(entries2, keys2, after_two->Ok_0, denom);
}

/// A deposit of one coin.
pub open spec fn deposit_step(owner: Seq<char>, denom: Seq<char>, amount: nat) -> Call {
    Call::DepositCoin { sender: owner, funds: seq![CoinView { denom, amount }] }
}

/// A deposit of tokens.
pub open spec fn token_deposit_step(contract: Seq<char>, owner: Seq<char>, amount: nat) -> Call {
    Call::DepositToken { contract, owner, amount }
}

/// Queries between deposits of tokens, on a store that reads back in full. An
/// owner with no record is not found. After one deposit of `first` the answer is
/// one record with that amount and a count of one. After a second deposit, of
/// `second` at the same key, it is one record with the sum and a count of two.
pub proof fn lemma_token_queries(
    l: LedgerView,
    contract: Seq<char>,
    owner: Seq<char>,
    first: nat,
    second: nat,
    at_start: Result<Seq<Cw20DepositView>, ContractError>,
    after_one: Result<Seq<Cw20DepositView>, ContractError>,
    after_two: Result<Seq<Cw20DepositView>, ContractError>,
)
    requires
        segment_ok(owner),
        forall|k: Seq<char>| !l.tokens.contains_key((owner, k)),
        first + second <= u128::MAX,
        query_outcome(at_start, true, true, under_owner(l.tokens, owner)),
        query_outcome(
            after_one,
            true,
            true,
            under_owner(run(l, seq![token_deposit_step(contract, owner, first)]).tokens, owner),
        ),
        query_outcome(
            after_two,
            true,
            true,
            under_owner(
                run(
                    l,
                    seq![
                        token_deposit_step(contract, owner, first),
                        token_deposit_step(contract, owner, second),
                    ],
                ).tokens,
                owner,
            ),
        ),
    ensures
        at_start == Err::<Seq<Cw20DepositView>, ContractError>(ContractError::NotFound {  }),
        after_one == Ok::<Seq<Cw20DepositView>, ContractError>(
            seq![Cw20DepositView { owner, amount: first, contract, count: 1 }],
        ),
        after_two == Ok::<Seq<Cw20DepositView>, ContractError>(
            seq![Cw20DepositView { owner, amount: first + second, contract, count: 2 }],
        ),
{
    let one = seq![token_deposit_step(contract, owner, first)];
    let two = seq![
        token_deposit_step(contract, owner, first),
        token_deposit_step(contract, owner, second),
    ];
    assert(one.drop_last() =~= Seq::<Call>::empty());
    assert(two.drop_last() =~= one);
    let l1 = run(l, one);
    let l2 = run(l, two);
    assert(run(l, Seq::<Call>::empty()) == l);
    assert(l1 == step(l, token_deposit_step(contract, owner, first)));
    assert(l2 == step(l1, token_deposit_step(contract, owner, second)));
    let entries1 = under_owner(l1.tokens, owner);
    let entries2 = under_owner(l2.tokens, owner);
    assert(entries1.contains_key(contract));
    assert(entries2.contains_key(contract));
    assert(!under_owner(l.tokens, owner).contains_key(contract));
    if at_start is Ok {
        let keys = choose|keys: Seq<Seq<char>>|
            lists_all(under_owner(l.tokens, owner), keys, at_start->Ok_0);
        assert(under_owner(l.tokens, owner).contains_key(keys[0]));
    }
    assert(after_one is Ok);
    assert(after_two is Ok);
    let keys1 = choose|keys: Seq<Seq<char>>| lists_all(entries1, keys, after_one->Ok_0);
    lemma_single_listing(entries1, keys1, after_one->Ok_0, contract);
    let keys2 = choose|keys: Seq<Seq<char>>| lists_all(entries2, keys, after_two->Ok_0);
    lemma_single_listing(entries2, keys2, after_two->Ok_0, contract);
}

} // verus!
