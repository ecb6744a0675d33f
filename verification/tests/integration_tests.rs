use std::collections::BTreeMap;

use cosmwasm_std::MemoryStorage;

use deposit_cw20::contract::{empty_store, execute, instantiate, query};
use deposit_cw20::msg::{
    Cw20HookMsg, Cw20ReceiveMsg, ExecuteMsg, InstantiateMsg, MessageInfo, QueryMsg, QueryResponse,
    TransferRequest,
};
use deposit_cw20::state::Coin;

const USER: &str = "juno1xdekj862ff8vp9jr98cr2e0gfpcnplgj3p0awr";
const BUYER: &str = "juno1pqn6edrdmr28ekdjv5j2u9uvh6m32tl306kh5h";
const MARKETPLACE: &str = "contract0";

/// A host that keeps the native balances and moves coins as the engine's calls
/// and transfer requests say.
struct Suite {
    bank: BTreeMap<(String, String), u128>,
    store: MemoryStorage,
    owner: String,
}

impl Suite {
    fn init() -> Suite {
        let mut bank = BTreeMap::new();
        bank.insert((USER.to_string(), "utest".to_string()), 1_000_000_000u128);
        bank.insert((BUYER.to_string(), "utest".to_string()), 1_000_000_000u128);
        Suite { bank, store: empty_store(), owner: USER.to_string() }
    }

    fn instantiate_nft_marketplace(&mut self) -> String {
        let info = MessageInfo { sender: self.owner.clone(), funds: vec![] };
        instantiate(info, InstantiateMsg {}).unwrap();
        MARKETPLACE.to_string()
    }

    fn query_balance(&self, address: String, denom: String) -> Coin {
        let amount = self.bank.get(&(address, denom.clone())).copied().unwrap_or(0);
        Coin { denom, amount }
    }

    fn execute_contract(&mut self, sender: &str, msg: &ExecuteMsg, send_funds: &[Coin]) {
        let info = MessageInfo { sender: sender.to_string(), funds: send_funds.to_vec() };
        let response = execute(&mut self.store, info, msg.clone()).unwrap();
        for coin in send_funds {
            *self.bank.entry((sender.to_string(), coin.denom.clone())).or_insert(0) -= coin.amount;
            *self.bank.entry((MARKETPLACE.to_string(), coin.denom.clone())).or_insert(0) +=
                coin.amount;
        }
        for request in response.messages {
            if let TransferRequest::Coins { to_address, denom, amount } = request {
                *self.bank.entry((MARKETPLACE.to_string(), denom.clone())).or_insert(0) -= amount;
                *self.bank.entry((to_address, denom)).or_insert(0) += amount;
            }
        }
    }
}

#[test]
fn test_deposit_and_withdraw_native() {
    let mut suite = Suite::init();
    let nft_marketplace_addr = suite.instantiate_nft_marketplace();

    let res = suite.query_balance(USER.to_string(), "utest".to_string());
    assert_eq!(res.denom, "utest".to_string());
    assert_eq!(res.amount, 1000000000);

    let res = suite.query_balance(BUYER.to_string(), "utest".to_string());
    assert_eq!(res.denom, "utest".to_string());
    assert_eq!(res.amount, 1000000000);

    let res = suite.query_balance(nft_marketplace_addr.clone(), "utest".to_string());
    assert_eq!(res.denom, "utest".to_string());
    assert_eq!(res.amount, 0);

    let msg = ExecuteMsg::Deposit {};
    let send_funds = vec![Coin { denom: "utest".to_string(), amount: 1_000_000 }];

    suite.execute_contract(USER, &msg, &send_funds);
    suite.execute_contract(USER, &msg, &send_funds);
    suite.execute_contract(BUYER, &msg, &send_funds);

    let res = suite.query_balance(nft_marketplace_addr.clone(), "utest".to_string());
    assert_eq!(res.denom, "utest".to_string());
    assert_eq!(res.amount, 3_000_000);

    let res = suite.query_balance(USER.to_string(), "utest".to_string());
    assert_eq!(res.denom, "utest".to_string());
    assert_eq!(res.amount, 998_000_000);

    let res = suite.query_balance(BUYER.to_string(), "utest".to_string());
    assert_eq!(res.denom, "utest".to_string());
    assert_eq!(res.amount, 999_000_000);

    let msg = ExecuteMsg::Withdraw { amount: 1_999_999, denom: "utest".to_string() };
    let send_funds = vec![];
    suite.execute_contract(USER, &msg, &send_funds);

    let res = suite.query_balance(nft_marketplace_addr.clone(), "utest".to_string());
    assert_eq!(res.denom, "utest".to_string());
    assert_eq!(res.amount, 1_000_001);

    let res = suite.query_balance(USER.to_string(), "utest".to_string());
    assert_eq!(res.denom, "utest".to_string());
    assert_eq!(res.amount, 999_999_999);
}

#[test]
fn test_deposit_and_withdraw_cw20() {
    let mut suite = Suite::init();
    let _nft_marketplace_addr = suite.instantiate_nft_marketplace();

    let res = suite.query_balance(USER.to_string(), "utest".to_string());
    assert_eq!(res.denom, "utest".to_string());
    assert_eq!(res.amount, 1000000000);

    let res = suite.query_balance(BUYER.to_string(), "utest".to_string());
    assert_eq!(res.denom, "utest".to_string());
    assert_eq!(res.amount, 1000000000);

    let msg = QueryMsg::GetCw20Deposit { address: USER.to_string() };
    let res = query(&suite.store, msg);
    match res {
        Err(_) => {}
        _ => panic!("should error here since there aren't any deposits yet"),
    };

    let cw20_msg = Cw20ReceiveMsg {
        sender: MARKETPLACE.to_string(),
        amount: 0,
        msg: Cw20HookMsg::Deposit { owner: USER.to_string(), amount: 100 },
    };
    let msg = ExecuteMsg::Receive(cw20_msg);
    let send_funds = vec![];

    suite.execute_contract(USER, &msg, &send_funds);
    suite.execute_contract(USER, &msg, &send_funds);

    let msg = QueryMsg::GetCw20Deposit { address: suite.owner.clone() };
    let value = match query(&suite.store, msg).unwrap() {
        QueryResponse::Cw20Deposits(found) => found,
        _ => panic!("a token query answers with token deposits"),
    };

    println!("VALUE: {:?}", value);
    assert_eq!(value.deposits[0].owner.clone(), USER.to_string());
    assert_eq!(value.deposits[0].amount, 200);
    assert_eq!(value.deposits[0].count, 2);
}
