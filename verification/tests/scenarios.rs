use cosmwasm_std::MemoryStorage;

use deposit_cw20::contract::{
    empty_store, execute, execute_cw20_deposit, execute_cw721_deposit, execute_purchase,
    try_deposit, try_query_cw20_deposit, try_query_cw721_deposit, try_query_deposit,
    try_withdraw_cw20, try_withdraw_cw721, try_withdraw_deposit,
};
use deposit_cw20::error::ContractError;
use deposit_cw20::msg::{
    Attribute, Cw20HookMsg, Cw20ReceiveMsg, ExecuteMsg, MessageInfo, Response, TransferRequest,
};
use deposit_cw20::state::{Coin, Cw20Deposit, Cw721Deposit, Deposit};

fn info(sender: &str) -> MessageInfo {
    MessageInfo { sender: sender.to_string(), funds: vec![] }
}

fn info_with(sender: &str, denom: &str, amount: u128) -> MessageInfo {
    MessageInfo { sender: sender.to_string(), funds: vec![Coin { denom: denom.to_string(), amount }] }
}

fn attribute(key: &str, value: &str) -> Attribute {
    Attribute { key: key.to_string(), value: value.to_string() }
}

fn payment(buyer: &str, amount: u128, token_id: &str, contract: &str) -> Cw20ReceiveMsg {
    Cw20ReceiveMsg {
        sender: buyer.to_string(),
        amount,
        msg: Cw20HookMsg::Purchase {
            token_id: token_id.to_string(),
            cw721_contract: contract.to_string(),
        },
    }
}

fn list(store: &mut MemoryStorage, contract: &str, owner: &str, token_id: &str, price: u128) {
    execute_cw721_deposit(
        store,
        info(contract),
        owner.to_string(),
        token_id.to_string(),
        "P".to_string(),
        price,
    )
    .unwrap();
}

fn coin_record(store: &MemoryStorage, owner: &str) -> Deposit {
    let found = try_query_deposit(store, owner.to_string()).unwrap();
    assert_eq!(found.deposits.len(), 1);
    found.deposits[0].clone()
}

#[test]
fn two_deposits_then_withdrawals_keep_the_balance_exact() {
    let mut store = empty_store();
    try_deposit(&mut store, info_with("O", "x", 1_000_000)).unwrap();
    try_deposit(&mut store, info_with("O", "x", 1_000_000)).unwrap();
    let held = coin_record(&store, "O");
    assert_eq!(held.amount.amount, 2_000_000);
    assert_eq!(held.count, 2);

    let paid = try_withdraw_deposit(&mut store, info("O"), 1_999_999, "x".to_string()).unwrap();
    assert_eq!(
        paid.messages,
        vec![TransferRequest::Coins {
            to_address: "O".to_string(),
            denom: "x".to_string(),
            amount: 1_999_999,
        }]
    );
    let held = coin_record(&store, "O");
    assert_eq!(held.amount.amount, 1);
    assert_eq!(held.count, 1);

    let refused = try_withdraw_deposit(&mut store, info("O"), 2, "x".to_string());
    assert!(matches!(refused, Err(ContractError::InsufficientBalance {})));
    let held = coin_record(&store, "O");
    assert_eq!(held.amount.amount, 1);
    assert_eq!(held.count, 1);
}

#[test]
fn a_listed_token_is_sold_for_its_price_and_only_for_it() {
    let mut store = empty_store();
    list(&mut store, "C", "O", "T1", 100);

    let short = execute_purchase(
        &mut store,
        info("P"),
        "T1".to_string(),
        "C".to_string(),
        &payment("B", 99, "T1", "C"),
    );
    assert!(matches!(short, Err(ContractError::InvalidBid {})));
    let custody = try_query_cw721_deposit(&store, "O".to_string(), "C".to_string()).unwrap();
    assert_eq!(
        custody.deposits,
        vec![Cw721Deposit {
            owner: "O".to_string(),
            contract: "C".to_string(),
            token_id: "T1".to_string(),
        }]
    );

    let sold = execute_purchase(
        &mut store,
        info("P"),
        "T1".to_string(),
        "C".to_string(),
        &payment("B", 100, "T1", "C"),
    )
    .unwrap();
    assert_eq!(
        sold,
        Response {
            attributes: vec![
                attribute("execute", "nft_purchase"),
                attribute("token_id", "T1"),
                attribute("from", "O"),
                attribute("to", "B"),
            ],
            messages: vec![TransferRequest::Nft {
                contract_addr: "C".to_string(),
                recipient: "B".to_string(),
                token_id: "T1".to_string(),
            }],
        }
    );

    let custody = try_query_cw721_deposit(&store, "O".to_string(), "C".to_string());
    assert!(matches!(custody, Err(ContractError::NotFound {})));
    let again = execute_purchase(
        &mut store,
        info("P"),
        "T1".to_string(),
        "C".to_string(),
        &payment("B", 100, "T1", "C"),
    );
    assert!(matches!(again, Err(ContractError::NoBidsForTokenID {})));
}

#[test]
fn an_overpayment_does_not_buy() {
    let mut store = empty_store();
    list(&mut store, "C", "O", "T1", 100);
    let over = execute_purchase(
        &mut store,
        info("P"),
        "T1".to_string(),
        "C".to_string(),
        &payment("B", 101, "T1", "C"),
    );
    assert!(matches!(over, Err(ContractError::InvalidBid {})));
    assert!(try_query_cw721_deposit(&store, "O".to_string(), "C".to_string()).is_ok());
}

#[test]
fn balance_is_deposits_less_withdrawals_whatever_else_is_called() {
    let mut store = empty_store();
    try_deposit(&mut store, info_with("O", "x", 500)).unwrap();
    try_deposit(&mut store, info_with("other", "x", 7)).unwrap();
    try_deposit(&mut store, info_with("O", "y", 11)).unwrap();
    execute_cw20_deposit(&mut store, info("token"), "O".to_string(), 40).unwrap();
    list(&mut store, "C", "O", "T1", 100);
    try_deposit(&mut store, info_with("O", "x", 250)).unwrap();
    try_withdraw_deposit(&mut store, info("O"), 300, "x".to_string()).unwrap();
    assert!(try_withdraw_deposit(&mut store, info("O"), 451, "x".to_string()).is_err());
    try_withdraw_deposit(&mut store, info("other"), 7, "x".to_string()).unwrap();

    let found = try_query_deposit(&store, "O".to_string()).unwrap();
    assert_eq!(
        found.deposits,
        vec![
            Deposit {
                owner: "O".to_string(),
                amount: Coin { denom: "x".to_string(), amount: 500 + 250 - 300 },
                count: 1,
            },
            Deposit {
                owner: "O".to_string(),
                amount: Coin { denom: "y".to_string(), amount: 11 },
                count: 1,
            },
        ]
    );
    let other = coin_record(&store, "other");
    assert_eq!(other.amount.amount, 0);
    assert_eq!(other.count, 0);
}

#[test]
fn token_balance_is_deposits_less_withdrawals() {
    let mut store = empty_store();
    execute_cw20_deposit(&mut store, info("token"), "O".to_string(), 40).unwrap();
    execute_cw20_deposit(&mut store, info("token"), "O".to_string(), 2).unwrap();
    execute_cw20_deposit(&mut store, info("other_token"), "O".to_string(), 9).unwrap();
    let taken = try_withdraw_cw20(&mut store, info("token"), "O".to_string(), 12).unwrap();
    assert_eq!(
        taken,
        Response {
            attributes: vec![
                attribute("execute", "withdraw_cw20"),
                attribute("amount", "12"),
                attribute("from", "token"),
                attribute("to", "O"),
            ],
            messages: vec![],
        }
    );
    let refused = try_withdraw_cw20(&mut store, info("token"), "O".to_string(), 31);
    assert!(matches!(refused, Err(ContractError::InsufficientBalance {})));

    let found = try_query_cw20_deposit(&store, "O".to_string()).unwrap();
    assert_eq!(
        found.deposits,
        vec![
            Cw20Deposit {
                owner: "O".to_string(),
                amount: 9,
                contract: "other_token".to_string(),
                count: 1,
            },
            Cw20Deposit {
                owner: "O".to_string(),
                amount: 30,
                contract: "token".to_string(),
                count: 1,
            },
        ]
    );
}

#[test]
fn a_token_in_custody_cannot_be_listed_again() {
    let mut store = empty_store();
    list(&mut store, "C", "O", "T1", 100);

    let same_owner = execute_cw721_deposit(
        &mut store,
        info("C"),
        "O".to_string(),
        "T1".to_string(),
        "P".to_string(),
        5,
    );
    assert!(matches!(same_owner, Err(ContractError::Cw721AlreadyDeposited {})));
    let other_owner = execute_cw721_deposit(
        &mut store,
        info("C"),
        "thief".to_string(),
        "T1".to_string(),
        "P".to_string(),
        5,
    );
    assert!(matches!(other_owner, Err(ContractError::Cw721AlreadyDeposited {})));

    assert!(matches!(
        try_query_cw721_deposit(&store, "thief".to_string(), "C".to_string()),
        Err(ContractError::NotFound {})
    ));
    let cheap = execute_purchase(
        &mut store,
        info("P"),
        "T1".to_string(),
        "C".to_string(),
        &payment("B", 5, "T1", "C"),
    );
    assert!(matches!(cheap, Err(ContractError::InvalidBid {})));
}

#[test]
fn a_withdrawn_token_can_no_longer_be_bought() {
    let mut store = empty_store();
    list(&mut store, "C", "O", "T1", 100);

    let stranger = try_withdraw_cw721(&mut store, info("B"), "C".to_string(), "T1".to_string());
    assert!(matches!(stranger, Err(ContractError::NoCw721ToWithdraw {})));

    let back = try_withdraw_cw721(&mut store, info("O"), "C".to_string(), "T1".to_string()).unwrap();
    assert_eq!(
        back,
        Response {
            attributes: vec![
                attribute("execute", "cw721_withdraw"),
                attribute("token_id", "T1"),
                attribute("receiver_address", "O"),
            ],
            messages: vec![TransferRequest::Nft {
                contract_addr: "C".to_string(),
                recipient: "O".to_string(),
                token_id: "T1".to_string(),
            }],
        }
    );

    let late = execute_purchase(
        &mut store,
        info("P"),
        "T1".to_string(),
        "C".to_string(),
        &payment("B", 100, "T1", "C"),
    );
    assert!(matches!(late, Err(ContractError::NoBidsForTokenID {})));

    list(&mut store, "C", "O2", "T1", 7);
    let custody = try_query_cw721_deposit(&store, "O2".to_string(), "C".to_string()).unwrap();
    assert_eq!(custody.deposits[0].owner, "O2");
}

#[test]
fn queries_between_deposits() {
    let mut store = empty_store();
    assert!(matches!(
        try_query_deposit(&store, "O".to_string()),
        Err(ContractError::NotFound {})
    ));

    try_deposit(&mut store, info_with("O", "x", 30)).unwrap();
    let found = try_query_deposit(&store, "O".to_string()).unwrap();
    assert_eq!(
        found.deposits,
        vec![Deposit {
            owner: "O".to_string(),
            amount: Coin { denom: "x".to_string(), amount: 30 },
            count: 1,
        }]
    );
    let again = try_query_deposit(&store, "O".to_string()).unwrap();
    assert_eq!(again, found);

    try_deposit(&mut store, info_with("O", "x", 12)).unwrap();
    let found = try_query_deposit(&store, "O".to_string()).unwrap();
    assert_eq!(
        found.deposits,
        vec![Deposit {
            owner: "O".to_string(),
            amount: Coin { denom: "x".to_string(), amount: 42 },
            count: 2,
        }]
    );
}

#[test]
fn a_query_lists_one_owner_in_ascending_key_order() {
    let mut store = empty_store();
    for denom in ["b", "a", "c", "ab", "B"] {
        try_deposit(&mut store, info_with("O", denom, 1)).unwrap();
    }
    try_deposit(&mut store, info_with("O2", "a", 1)).unwrap();
    try_deposit(&mut store, info_with("", "zero", 1)).unwrap();

    let found = try_query_deposit(&store, "O".to_string()).unwrap();
    let denoms: Vec<&str> = found.deposits.iter().map(|d| d.amount.denom.as_str()).collect();
    assert_eq!(denoms, vec!["B", "a", "ab", "b", "c"]);
    assert!(found.deposits.iter().all(|d| d.owner == "O"));

    let found = try_query_deposit(&store, "".to_string()).unwrap();
    assert_eq!(found.deposits.len(), 1);
    assert_eq!(found.deposits[0].amount.denom, "zero");
}

#[test]
fn custody_is_listed_by_owner_and_contract() {
    let mut store = empty_store();
    list(&mut store, "C", "O", "T2", 1);
    list(&mut store, "C", "O", "T1", 1);
    list(&mut store, "C2", "O", "T9", 1);
    list(&mut store, "C", "O2", "T3", 1);

    let found = try_query_cw721_deposit(&store, "O".to_string(), "C".to_string()).unwrap();
    let ids: Vec<&str> = found.deposits.iter().map(|d| d.token_id.as_str()).collect();
    assert_eq!(ids, vec!["T1", "T2"]);
}

#[test]
fn the_token_key_is_the_calling_contract() {
    let mut store = empty_store();
    let msg = ExecuteMsg::Receive(Cw20ReceiveMsg {
        sender: "someone".to_string(),
        amount: 0,
        msg: Cw20HookMsg::Deposit { owner: "O".to_string(), amount: 5 },
    });
    let done = execute(&mut store, info("token"), msg).unwrap();
    assert_eq!(
        done.attributes,
        vec![
            attribute("execute", "cw20_deposit"),
            attribute("owner", "O"),
            attribute("amount", "5"),
            attribute("contract", "token"),
        ]
    );
    let found = try_query_cw20_deposit(&store, "O".to_string()).unwrap();
    assert_eq!(found.deposits[0].contract, "token");
    assert!(try_withdraw_cw20(&mut store, info("someone"), "O".to_string(), 5).is_err());
}

#[test]
fn a_listing_reports_what_it_did() {
    let mut store = empty_store();
    let done = execute_cw721_deposit(
        &mut store,
        info("C"),
        "O".to_string(),
        "T1".to_string(),
        "P".to_string(),
        340282366920938463463374607431768211455,
    )
    .unwrap();
    assert_eq!(
        done,
        Response {
            attributes: vec![
                attribute("execute", "deposit_cw721"),
                attribute("owner", "O"),
                attribute("cw721_contract", "C"),
                attribute("token_id", "T1"),
                attribute("cw20_addr", "P"),
                attribute("amount_requested", "340282366920938463463374607431768211455"),
            ],
            messages: vec![],
        }
    );
}

#[test]
fn a_deposit_reports_what_it_did() {
    let mut store = empty_store();
    let done = try_deposit(&mut store, info_with("O", "x", 1_000_000)).unwrap();
    assert_eq!(
        done,
        Response {
            attributes: vec![
                attribute("execute", "deposit"),
                attribute("amount", "1000000"),
                attribute("denom", "x"),
            ],
            messages: vec![],
        }
    );
    let out = try_withdraw_deposit(&mut store, info("O"), 10, "x".to_string()).unwrap();
    assert_eq!(
        out.attributes,
        vec![
            attribute("execute", "withdraw_deposit"),
            attribute("amount", "10"),
            attribute("denom", "x"),
            attribute("to", "O"),
        ]
    );
}

#[test]
fn records_live_in_the_tables_of_the_store() {
    let mut store = empty_store();
    try_deposit(&mut store, info_with("O", "x", 30)).unwrap();
    execute_cw20_deposit(&mut store, info("token"), "O".to_string(), 4).unwrap();
    list(&mut store, "C", "O", "T1", 100);

    let coins: cw_storage_plus::Map<(&str, &str), (String, String, u128, u64)> =
        cw_storage_plus::Map::new("deposits");
    assert_eq!(
        coins.load(&store, ("O", "x")).unwrap(),
        ("O".to_string(), "x".to_string(), 30, 1)
    );
    let tokens: cw_storage_plus::Map<(&str, &str), (String, u128, String, u64)> =
        cw_storage_plus::Map::new("cw20deposits");
    assert_eq!(
        tokens.load(&store, ("O", "token")).unwrap(),
        ("O".to_string(), 4, "token".to_string(), 1)
    );
    let custody: cw_storage_plus::Map<(&str, &str, &str), (String, String, String)> =
        cw_storage_plus::Map::new("cw721deposits");
    assert!(custody.has(&store, ("O", "C", "T1")));
    let asks: cw_storage_plus::Map<(&str, &str), (String, String, String, String, u128)> =
        cw_storage_plus::Map::new("asks");
    assert_eq!(
        asks.load(&store, ("C", "T1")).unwrap(),
        ("O".to_string(), "T1".to_string(), "C".to_string(), "P".to_string(), 100)
    );

    try_withdraw_cw721(&mut store, info("O"), "C".to_string(), "T1".to_string()).unwrap();
    assert!(!custody.has(&store, ("O", "C", "T1")));
    assert!(!asks.has(&store, ("C", "T1")));
}

#[test]
fn an_entry_that_does_not_read_back_fails_the_query() {
    let mut store = empty_store();
    try_deposit(&mut store, info_with("O", "x", 30)).unwrap();
    let raw: cw_storage_plus::Map<(&str, &str), String> = cw_storage_plus::Map::new("deposits");
    raw.save(&mut store, ("O", "y"), &"not a record".to_string()).unwrap();

    assert!(matches!(try_query_deposit(&store, "O".to_string()), Err(ContractError::Std(_))));
    assert!(matches!(
        try_withdraw_deposit(&mut store, info("O"), 1, "y".to_string()),
        Err(ContractError::NoDepositFound {})
    ));
    try_deposit(&mut store, info_with("O", "y", 2)).unwrap();
    let found = try_query_deposit(&store, "O".to_string()).unwrap();
    assert_eq!(found.deposits.len(), 2);
    assert_eq!(found.deposits[1].amount.amount, 2);
}

#[test]
fn a_payment_counts_only_through_the_price_token() {
    let mut store = empty_store();
    list(&mut store, "C", "O", "T1", 100);

    let stranger = execute_purchase(
        &mut store,
        info("X"),
        "T1".to_string(),
        "C".to_string(),
        &payment("B", 100, "T1", "C"),
    );
    assert!(matches!(stranger, Err(ContractError::Unauthorized {})));
    let buyer_itself = execute(
        &mut store,
        info("B"),
        ExecuteMsg::Receive(payment("B", 100, "T1", "C")),
    );
    assert!(matches!(buyer_itself, Err(ContractError::Unauthorized {})));
    let wrong_on_both = execute_purchase(
        &mut store,
        info("X"),
        "T1".to_string(),
        "C".to_string(),
        &payment("B", 99, "T1", "C"),
    );
    assert!(matches!(wrong_on_both, Err(ContractError::InvalidBid {})));

    let custody = try_query_cw721_deposit(&store, "O".to_string(), "C".to_string()).unwrap();
    assert_eq!(custody.deposits.len(), 1);
    assert_eq!(custody.deposits[0].token_id, "T1");

    let sold = execute(
        &mut store,
        info("P"),
        ExecuteMsg::Receive(payment("B", 100, "T1", "C")),
    )
    .unwrap();
    assert_eq!(
        sold.messages,
        vec![TransferRequest::Nft {
            contract_addr: "C".to_string(),
            recipient: "B".to_string(),
            token_id: "T1".to_string(),
        }]
    );
    assert!(matches!(
        try_query_cw721_deposit(&store, "O".to_string(), "C".to_string()),
        Err(ContractError::NotFound {})
    ));
}

#[test]
fn a_listing_creates_the_custody_record_and_the_ask_and_nothing_else() {
    let mut store = empty_store();
    try_deposit(&mut store, info_with("O", "x", 30)).unwrap();
    execute_cw20_deposit(&mut store, info("token"), "O".to_string(), 4).unwrap();
    list(&mut store, "C", "O", "T0", 1);
    let coins_before = try_query_deposit(&store, "O".to_string()).unwrap();
    let tokens_before = try_query_cw20_deposit(&store, "O".to_string()).unwrap();

    let done = execute_cw721_deposit(
        &mut store,
        info("C"),
        "O".to_string(),
        "T1".to_string(),
        "P".to_string(),
        100,
    )
    .unwrap();
    assert!(done.messages.is_empty());

    let custody = try_query_cw721_deposit(&store, "O".to_string(), "C".to_string()).unwrap();
    assert_eq!(
        custody.deposits,
        vec![
            Cw721Deposit {
                owner: "O".to_string(),
                contract: "C".to_string(),
                token_id: "T0".to_string(),
            },
            Cw721Deposit {
                owner: "O".to_string(),
                contract: "C".to_string(),
                token_id: "T1".to_string(),
            },
        ]
    );
    let asks: cw_storage_plus::Map<(&str, &str), (String, String, String, String, u128)> =
        cw_storage_plus::Map::new("asks");
    assert_eq!(
        asks.load(&store, ("C", "T1")).unwrap(),
        ("O".to_string(), "T1".to_string(), "C".to_string(), "P".to_string(), 100)
    );
    assert_eq!(
        asks.load(&store, ("C", "T0")).unwrap(),
        ("O".to_string(), "T0".to_string(), "C".to_string(), "P".to_string(), 1)
    );
    assert_eq!(try_query_deposit(&store, "O".to_string()).unwrap(), coins_before);
    assert_eq!(try_query_cw20_deposit(&store, "O".to_string()).unwrap(), tokens_before);
}

