//! The ledger store: four keyed tables kept in a `cosmwasm_std::MemoryStorage`
//! through `cw_storage_plus::Map`.
//!
//! Nothing here is proved of the storage itself. Each function that touches it
//! states what the two crates do, and the rest of the library is proved from
//! those statements.

use crate::state::{Coin, Cw20Deposit, Cw20DepositView, Cw721Deposit, Cw721DepositView, Deposit,
    DepositView, Offer, OfferView};
use cosmwasm_std::{MemoryStorage, Order, StdError};
use vstd::prelude::*;
use vstd::utf8::encode_utf8;

verus! {

#[verifier::external_type_specification]
#[verifier::external_body]
pub struct ExMemoryStorage(cosmwasm_std::MemoryStorage);

/// The coin deposits that the store holds, by (owner, denomination).
pub uninterp spec fn coin_deposits(store: MemoryStorage) -> Map<(Seq<char>, Seq<char>), DepositView>;

/// The token deposits that the store holds, by (owner, token contract).
pub uninterp spec fn cw20_deposits(store: MemoryStorage) -> Map<
    (Seq<char>, Seq<char>),
    Cw20DepositView,
>;

/// The custody records that the store holds, by (owner, contract, token id).
pub uninterp spec fn cw721_deposits(store: MemoryStorage) -> Map<
    (Seq<char>, Seq<char>, Seq<char>),
    Cw721DepositView,
>;

/// The asks that the store holds, by (contract, token id).
pub uninterp spec fn asks(store: MemoryStorage) -> Map<(Seq<char>, Seq<char>), OfferView>;

/// Whether every entry under the four tables reads back as a record.
pub uninterp spec fn intact(store: MemoryStorage) -> bool;

/// The four tables side by side.
pub struct LedgerView {
    pub coins: Map<(Seq<char>, Seq<char>), DepositView>,
    pub tokens: Map<(Seq<char>, Seq<char>), Cw20DepositView>,
    pub custody: Map<(Seq<char>, Seq<char>, Seq<char>), Cw721DepositView>,
    pub asks: Map<(Seq<char>, Seq<char>), OfferView>,
}

/// What a store holds, as the four tables.
pub open spec fn ledger(store: MemoryStorage) -> LedgerView {
    LedgerView {
        coins: coin_deposits(store),
        tokens: cw20_deposits(store),
        custody: cw721_deposits(store),
        asks: asks(store),
    }
}

/// The ledger that holds nothing.
pub open spec fn empty_ledger() -> LedgerView {
    LedgerView {
        coins: Map::empty(),
        tokens: Map::empty(),
        custody: Map::empty(),
        asks: Map::empty(),
    }
}

/// The longest leading key segment, in bytes, that the store's key encoding can frame.
pub const MAX_SEGMENT_BYTES: usize = 0xFFFF;

/// Whether `s` can be a leading segment of a key: its UTF-8 form fits the
/// two-byte length that frames every segment but the last.
pub open spec fn segment_ok(s: Seq<char>) -> bool {
    encode_utf8(s).len() <= 0xFFFF
}

/// Decides `segment_ok`.
pub fn fits_segment(s: &str) -> (b: bool)
    ensures
        b == segment_ok(s@),
{
    s.as_bytes().len() <= MAX_SEGMENT_BYTES
}

/// Byte strings in dictionary order: the order in which the store walks its keys.
pub open spec fn bytes_lt(a: Seq<u8>, b: Seq<u8>) -> bool
    decreases a.len(),
{
    if b.len() == 0 {
        false
    } else if a.len() == 0 {
        true
    } else if a[0] != b[0] {
        a[0] < b[0]
    } else {
        bytes_lt(a.drop_first(), b.drop_first())
    }
}

/// The order of two last key segments under one prefix.
pub open spec fn key_lt(a: Seq<char>, b: Seq<char>) -> bool {
    bytes_lt(encode_utf8(a), encode_utf8(b))
}

/// The entries of a two-part table under one first part, by their second part.
pub open spec fn under_owner<V>(table: Map<(Seq<char>, Seq<char>), V>, owner: Seq<char>) -> Map<
    Seq<char>,
    V,
> {
    Map::new(|k: Seq<char>| table.contains_key((owner, k)), |k: Seq<char>| table[(owner, k)])
}

/// The entries of a three-part table under its first two parts, by their third part.
pub open spec fn under_owner_contract<V>(
    table: Map<(Seq<char>, Seq<char>, Seq<char>), V>,
    owner: Seq<char>,
    contract: Seq<char>,
) -> Map<Seq<char>, V> {
    Map::new(
        |k: Seq<char>| table.contains_key((owner, contract, k)),
        |k: Seq<char>| table[(owner, contract, k)],
    )
}

/// `keys` and `values` list `entries` in full, once each, in ascending key order.
pub open spec fn lists_all<V>(entries: Map<Seq<char>, V>, keys: Seq<Seq<char>>, values: Seq<V>) -> bool {
    &&& keys.len() == values.len()
    &&& forall|i: int|
        0 <= i < keys.len() ==> entries.contains_key(#[trigger] keys[i]) && entries[keys[i]]
            == values[i]
    &&& forall|i: int, j: int|
        0 <= i < j < keys.len() ==> key_lt(#[trigger] keys[i], #[trigger] keys[j])
    &&& forall|k: Seq<char>| #[trigger] entries.contains_key(k) ==> keys.contains(k)
}

/// The last key segments of a listing.
pub open spec fn listed_keys<T>(found: Seq<(String, T)>) -> Seq<Seq<char>> {
    Seq::new(found.len(), |i: int| found[i].0@)
}

/// The records of a listing.
pub open spec fn listed_values<T: View>(found: Seq<(String, T)>) -> Seq<T::V> {
    Seq::new(found.len(), |i: int| found[i].1@)
}

/// `cw_storage_plus::Map::load` on the table `deposits`. A key that is absent and
/// an entry that does not read back both give `None`, so the result is the
/// table's entry at the key.
#[verifier::external_body]
pub(crate) fn coin_load(store: &MemoryStorage, owner: &str, denom: &str) -> (r: Option<Deposit>)
    requires
        segment_ok(owner@),
    ensures
        r is Some <==> coin_deposits(*store).contains_key((owner@, denom@)),
        r is Some ==> r->0@ == coin_deposits(*store)[(owner@, denom@)],
{
    let table: cw_storage_plus::Map<(&str, &str), (String, String, u128, u64)> =
        cw_storage_plus::Map::new("deposits");
    match table.load(store, (owner, denom)) {
        Ok(t) => Some(Deposit { owner: t.0, amount: Coin { denom: t.1, amount: t.2 }, count: t.3 }),
        Err(_) => None,
    }
}

/// `cw_storage_plus::Map::save` on the table `deposits`. The record is written as a
/// JSON array of strings and unsigned integers, for which the encoder has no
/// failing path: the call returns `Ok`, the entry at the key is the record and
/// every other entry is as before.
#[verifier::external_body]
pub(crate) fn coin_save(store: &mut MemoryStorage, owner: &str, denom: &str, deposit: &Deposit) -> (r:
    Result<(), StdError>)
    requires
        segment_ok(owner@),
    ensures
        r is Ok,
        coin_deposits(*final(store)) == coin_deposits(*old(store)).insert(
            (owner@, denom@),
            deposit@,
        ),
        cw20_deposits(*final(store)) == cw20_deposits(*old(store)),
        cw721_deposits(*final(store)) == cw721_deposits(*old(store)),
        asks(*final(store)) == asks(*old(store)),
        intact(*old(store)) ==> intact(*final(store)),
{
    let table: cw_storage_plus::Map<(&str, &str), (String, String, u128, u64)> =
        cw_storage_plus::Map::new("deposits");
    let d = deposit.clone();
    table.save(store, (owner, denom), &(d.owner, d.amount.denom, d.amount.amount, d.count))
}

/// `cw_storage_plus::Prefix::range` over the table `deposits` under one owner, in
/// ascending order. It stops at the first entry that does not read back; a
/// store that is intact has none.
#[verifier::external_body]
pub(crate) fn coin_range(store: &MemoryStorage, owner: &str) -> (r: Result<
    Vec<(String, Deposit)>,
    StdError,
>)
    requires
        segment_ok(owner@),
    ensures
        intact(*store) ==> r is Ok,
        r is Ok ==> lists_all(
            under_owner(coin_deposits(*store), owner@),
            listed_keys(r->Ok_0@),
            listed_values(r->Ok_0@),
        ),
{
    let table: cw_storage_plus::Map<(&str, &str), (String, String, u128, u64)> =
        cw_storage_plus::Map::new("deposits");
    let mut found = Vec::new();
    for item in table.prefix(owner).range(store, None, None, Order::Ascending) {
        match item {
            Ok((k, t)) => found.push(
                (k, Deposit { owner: t.0, amount: Coin { denom: t.1, amount: t.2 }, count: t.3 }),
            ),
            Err(e) => return Err(e),
        }
    }
    Ok(found)
}

/// `cw_storage_plus::Map::load` on the table `cw20deposits`. A key that is absent
/// and an entry that does not read back both give `None`, so the result is the
/// table's entry at the key.
#[verifier::external_body]
pub(crate) fn cw20_load(store: &MemoryStorage, owner: &str, contract: &str) -> (r: Option<
    Cw20Deposit,
>)
    requires
        segment_ok(owner@),
    ensures
        r is Some <==> cw20_deposits(*store).contains_key((owner@, contract@)),
        r is Some ==> r->0@ == cw20_deposits(*store)[(owner@, contract@)],
{
    let table: cw_storage_plus::Map<(&str, &str), (String, u128, String, u64)> =
        cw_storage_plus::Map::new("cw20deposits");
    match table.load(store, (owner, contract)) {
        Ok(t) => Some(Cw20Deposit { owner: t.0, amount: t.1, contract: t.2, count: t.3 }),
        Err(_) => None,
    }
}

/// `cw_storage_plus::Map::save` on the table `cw20deposits`. The record is written as a
/// JSON array of strings and unsigned integers, for which the encoder has no
/// failing path: the call returns `Ok`, the entry at the key is the record and
/// every other entry is as before.
#[verifier::external_body]
pub(crate) fn cw20_save(
    store: &mut MemoryStorage,
    owner: &str,
    contract: &str,
    deposit: &Cw20Deposit,
) -> (r: Result<(), StdError>)
    requires
        segment_ok(owner@),
    ensures
        r is Ok,
        cw20_deposits(*final(store)) == cw20_deposits(*old(store)).insert(
            (owner@, contract@),
            deposit@,
        ),
        coin_deposits(*final(store)) == coin_deposits(*old(store)),
        cw721_deposits(*final(store)) == cw721_deposits(*old(store)),
        asks(*final(store)) == asks(*old(store)),
        intact(*old(store)) ==> intact(*final(store)),
{
    let table: cw_storage_plus::Map<(&str, &str), (String, u128, String, u64)> =
        cw_storage_plus::Map::new("cw20deposits");
    let d = deposit.clone();
    table.save(store, (owner, contract), &(d.owner, d.amount, d.contract, d.count))
}

/// `cw_storage_plus::Prefix::range` over the table `cw20deposits` under one
/// owner, in ascending order. It stops at the first entry that does not read
/// back; a store that is intact has none.
#[verifier::external_body]
pub(crate) fn cw20_range(store: &MemoryStorage, owner: &str) -> (r: Result<
    Vec<(String, Cw20Deposit)>,
    StdError,
>)
    requires
        segment_ok(owner@),
    ensures
        intact(*store) ==> r is Ok,
        r is Ok ==> lists_all(
            under_owner(cw20_deposits(*store), owner@),
            listed_keys(r->Ok_0@),
            listed_values(r->Ok_0@),
        ),
{
    let table: cw_storage_plus::Map<(&str, &str), (String, u128, String, u64)> =
        cw_storage_plus::Map::new("cw20deposits");
    let mut found = Vec::new();
    for item in table.prefix(owner).range(store, None, None, Order::Ascending) {
        match item {
            Ok((k, t)) => found.push(
                (k, Cw20Deposit { owner: t.0, amount: t.1, contract: t.2, count: t.3 }),
            ),
            Err(e) => return Err(e),
        }
    }
    Ok(found)
}

/// `cw_storage_plus::Map::load` on the table `cw721deposits`. A key that is
/// absent and an entry that does not read back both give `None`, so the result
/// is the table's entry at the key.
#[verifier::external_body]
pub(crate) fn cw721_load(store: &MemoryStorage, owner: &str, contract: &str, token_id: &str) -> (r:
    Option<Cw721Deposit>)
    requires
        segment_ok(owner@),
        segment_ok(contract@),
    ensures
        r is Some <==> cw721_deposits(*store).contains_key((owner@, contract@, token_id@)),
        r is Some ==> r->0@ == cw721_deposits(*store)[(owner@, contract@, token_id@)],
{
    let table: cw_storage_plus::Map<(&str, &str, &str), (String, String, String)> =
        cw_storage_plus::Map::new("cw721deposits");
    match table.load(store, (owner, contract, token_id)) {
        Ok(t) => Some(Cw721Deposit { owner: t.0, contract: t.1, token_id: t.2 }),
        Err(_) => None,
    }
}

/// `cw_storage_plus::Map::save` on the table `cw721deposits`. The record is written as a
/// JSON array of strings and unsigned integers, for which the encoder has no
/// failing path: the call returns `Ok`, the entry at the key is the record and
/// every other entry is as before.
#[verifier::external_body]
pub(crate) fn cw721_save(
    store: &mut MemoryStorage,
    owner: &str,
    contract: &str,
    token_id: &str,
    deposit: &Cw721Deposit,
) -> (r: Result<(), StdError>)
    requires
        segment_ok(owner@),
        segment_ok(contract@),
    ensures
        r is Ok,
        cw721_deposits(*final(store)) == cw721_deposits(*old(store)).insert(
            (owner@, contract@, token_id@),
            deposit@,
        ),
        coin_deposits(*final(store)) == coin_deposits(*old(store)),
        cw20_deposits(*final(store)) == cw20_deposits(*old(store)),
        asks(*final(store)) == asks(*old(store)),
        intact(*old(store)) ==> intact(*final(store)),
{
    let table: cw_storage_plus::Map<(&str, &str, &str), (String, String, String)> =
        cw_storage_plus::Map::new("cw721deposits");
    let d = deposit.clone();
    table.save(store, (owner, contract, token_id), &(d.owner, d.contract, d.token_id))
}

/// `cw_storage_plus::Map::remove` on the table `cw721deposits`: the entry at the
/// key is gone and every other entry is as before.
#[verifier::external_body]
pub(crate) fn cw721_remove(store: &mut MemoryStorage, owner: &str, contract: &str, token_id: &str)
    requires
        segment_ok(owner@),
        segment_ok(contract@),
    ensures
        cw721_deposits(*final(store)) == cw721_deposits(*old(store)).remove(
            (owner@, contract@, token_id@),
        ),
        coin_deposits(*final(store)) == coin_deposits(*old(store)),
        cw20_deposits(*final(store)) == cw20_deposits(*old(store)),
        asks(*final(store)) == asks(*old(store)),
        intact(*old(store)) ==> intact(*final(store)),
{
    let table: cw_storage_plus::Map<(&str, &str, &str), (String, String, String)> =
        cw_storage_plus::Map::new("cw721deposits");
    table.remove(store, (owner, contract, token_id))
}

/// `cw_storage_plus::Prefix::range` over the table `cw721deposits` under one
/// owner and contract, in ascending order. It stops at the first entry that does
/// not read back; a store that is intact has none.
#[verifier::external_body]
pub(crate) fn cw721_range(store: &MemoryStorage, owner: &str, contract: &str) -> (r: Result<
    Vec<(String, Cw721Deposit)>,
    StdError,
>)
    requires
        segment_ok(owner@),
        segment_ok(contract@),
    ensures
        intact(*store) ==> r is Ok,
        r is Ok ==> lists_all(
            under_owner_contract(cw721_deposits(*store), owner@, contract@),
            listed_keys(r->Ok_0@),
            listed_values(r->Ok_0@),
        ),
{
    let table: cw_storage_plus::Map<(&str, &str, &str), (String, String, String)> =
        cw_storage_plus::Map::new("cw721deposits");
    let mut found = Vec::new();
    for item in table.prefix((owner, contract)).range(store, None, None, Order::Ascending) {
        match item {
            Ok((k, t)) => found.push((k, Cw721Deposit { owner: t.0, contract: t.1, token_id: t.2 })),
            Err(e) => return Err(e),
        }
    }
    Ok(found)
}

/// `cw_storage_plus::Map::load` on the table `asks`. A key that is absent and an
/// entry that does not read back both give `None`, so the result is the table's
/// entry at the key.
#[verifier::external_body]
pub(crate) fn ask_load(store: &MemoryStorage, contract: &str, token_id: &str) -> (r: Option<Offer>)
    requires
        segment_ok(contract@),
    ensures
        r is Some <==> asks(*store).contains_key((contract@, token_id@)),
        r is Some ==> r->0@ == asks(*store)[(contract@, token_id@)],
{
    let table: cw_storage_plus::Map<(&str, &str), (String, String, String, String, u128)> =
        cw_storage_plus::Map::new("asks");
    match table.load(store, (contract, token_id)) {
        Ok(t) => Some(
            Offer { owner: t.0, token_id: t.1, cw721_contract: t.2, cw20_contract: t.3, amount: t.4 },
        ),
        Err(_) => None,
    }
}

/// `cw_storage_plus::Map::save` on the table `asks`. The record is written as a
/// JSON array of strings and unsigned integers, for which the encoder has no
/// failing path: the call returns `Ok`, the entry at the key is the record and
/// every other entry is as before.
#[verifier::external_body]
pub(crate) fn ask_save(store: &mut MemoryStorage, contract: &str, token_id: &str, ask: &Offer) -> (r:
    Result<(), StdError>)
    requires
        segment_ok(contract@),
    ensures
        r is Ok,
        asks(*final(store)) == asks(*old(store)).insert((contract@, token_id@), ask@),
        coin_deposits(*final(store)) == coin_deposits(*old(store)),
        cw20_deposits(*final(store)) == cw20_deposits(*old(store)),
        cw721_deposits(*final(store)) == cw721_deposits(*old(store)),
        intact(*old(store)) ==> intact(*final(store)),
{
    let table: cw_storage_plus::Map<(&str, &str), (String, String, String, String, u128)> =
        cw_storage_plus::Map::new("asks");
    let a = ask.clone();
    table.save(
        store,
        (contract, token_id),
        &(a.owner, a.token_id, a.cw721_contract, a.cw20_contract, a.amount),
    )
}

/// `cw_storage_plus::Map::remove` on the table `asks`: the entry at the key is
/// gone and every other entry is as before.
#[verifier::external_body]
pub(crate) fn ask_remove(store: &mut MemoryStorage, contract: &str, token_id: &str)
    requires
        segment_ok(contract@),
    ensures
        asks(*final(store)) == asks(*old(store)).remove((contract@, token_id@)),
        coin_deposits(*final(store)) == coin_deposits(*old(store)),
        cw20_deposits(*final(store)) == cw20_deposits(*old(store)),
        cw721_deposits(*final(store)) == cw721_deposits(*old(store)),
        intact(*old(store)) ==> intact(*final(store)),
{
    let table: cw_storage_plus::Map<(&str, &str), (String, String, String, String, u128)> =
        cw_storage_plus::Map::new("asks");
    table.remove(store, (contract, token_id))
}

/// `cosmwasm_std::MemoryStorage::new`: a store with no entry in it, so that each
/// table is empty and nothing in it fails to read back.
#[verifier::external_body]
pub(crate) fn new_memory_storage() -> (store: MemoryStorage)
    ensures
        ledger(store) == empty_ledger(),
        intact(store),
{
    MemoryStorage::new()
}

} // verus!
