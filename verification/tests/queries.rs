use vault::chain::MessageInfo;
use vault::contract::execute::{add_allowance, add_deposit_address};
use vault::contract::instantiate_contract;
use vault::contract::query::{can_deposit, get_allowance, get_allowances, get_deposit_addresses, get_state};
use vault::error::StdError;
use vault::ledger::Ledger;
use vault::msg::{
    AllowanceResponse, AllowancesResponse, CanDepositResponse, DepositAddressesResponse, InstantiateMsg, QueryMsg,
    QueryResponse, StateResponse,
};
use vault::query;
use vault::state::{State, Vault};

fn owner() -> MessageInfo {
    MessageInfo { sender: "owner".to_string(), funds: vec![] }
}

fn fresh() -> Vault {
    instantiate_contract(
        owner(),
        InstantiateMsg { name: "Vault X".to_string(), expected_denom: "atom".to_string() },
    )
    .0
}

#[test]
fn state_is_reported_as_it_is() {
    let vault = Vault::restore(
        State {
            owner: "owner".to_string(),
            name: "Vault X".to_string(),
            total_amount: 42,
            expected_denom: "atom".to_string(),
        },
        Ledger::new(),
        Ledger::new(),
    );
    let expected = StateResponse {
        owner: "owner".to_string(),
        name: "Vault X".to_string(),
        total_amount: 42,
        expected_denom: "atom".to_string(),
    };
    assert_eq!(get_state(&vault), expected);
    assert_eq!(query(&vault, QueryMsg::GetState {}), Ok(QueryResponse::State(expected)));
    assert_eq!(vault.state().total_amount, 42);
    assert_eq!(get_deposit_addresses(&vault).addresses, Vec::<String>::new());
}

#[test]
fn one_allowance_is_found_or_not() {
    let mut vault = fresh();
    add_allowance(&mut vault, owner(), "sender".to_string(), true, 5).unwrap();
    let found = AllowanceResponse { spender: "sender".to_string(), amount: 5 };
    assert_eq!(get_allowance(&vault, "sender".to_string()), Ok(found.clone()));
    assert_eq!(
        query(&vault, QueryMsg::GetAllowance { spender: "sender".to_string() }),
        Ok(QueryResponse::Allowance(found))
    );
    let missing = StdError::NotFound { kind: "allowance".to_string() };
    assert_eq!(get_allowance(&vault, "owner".to_string()), Err(missing.clone()));
    assert_eq!(query(&vault, QueryMsg::GetAllowance { spender: "owner".to_string() }), Err(missing));
}

#[test]
fn allowances_come_in_ascending_order() {
    let mut vault = fresh();
    for (spender, amount) in [("sender", 5u128), ("receiver", 10), ("joel", 1), ("ellie", 2), ("joe", 3)] {
        add_allowance(&mut vault, owner(), spender.to_string(), true, amount).unwrap();
    }
    let expected = AllowancesResponse {
        spenders: vec![
            "ellie".to_string(),
            "joe".to_string(),
            "joel".to_string(),
            "receiver".to_string(),
            "sender".to_string(),
        ],
        amounts: vec![2, 3, 1, 10, 5],
    };
    assert_eq!(get_allowances(&vault), expected);
    assert_eq!(query(&vault, QueryMsg::GetAllowances {}), Ok(QueryResponse::Allowances(expected)));
    assert_eq!(vault.allowances().get("joe"), Some(3));
}

#[test]
fn deposit_addresses_come_in_byte_order() {
    let mut vault = fresh();
    for address in ["sender", "b", "abc", "ab", "Zed", "\u{e9}t\u{e9}", "zz", "\u{10348}"] {
        add_deposit_address(&mut vault, owner(), address.to_string(), true).unwrap();
    }
    let expected: Vec<String> = ["Zed", "ab", "abc", "b", "owner", "sender", "zz", "\u{e9}t\u{e9}", "\u{10348}"]
        .iter()
        .map(|a| a.to_string())
        .collect();
    // The order of the texts' bytes, which is the order that std gives strings.
    let mut sorted = expected.clone();
    sorted.sort();
    assert_eq!(sorted, expected);
    assert_eq!(get_deposit_addresses(&vault), DepositAddressesResponse { addresses: expected.clone() });
    assert_eq!(
        query(&vault, QueryMsg::GetDepositAddresses {}),
        Ok(QueryResponse::DepositAddresses(DepositAddressesResponse { addresses: expected }))
    );
}

#[test]
fn can_deposit_tells_who_is_whitelisted() {
    let vault = fresh();
    assert_eq!(can_deposit(&vault, "owner".to_string()), CanDepositResponse { can_deposit: true });
    assert_eq!(can_deposit(&vault, "sender".to_string()), CanDepositResponse { can_deposit: false });
    assert_eq!(can_deposit(&vault, "own".to_string()), CanDepositResponse { can_deposit: false });
    assert_eq!(
        query(&vault, QueryMsg::CanDeposit { address: "owner".to_string() }),
        Ok(QueryResponse::CanDeposit(CanDepositResponse { can_deposit: true }))
    );
    assert_eq!(
        query(&vault, QueryMsg::CanDeposit { address: "ownerr".to_string() }),
        Ok(QueryResponse::CanDeposit(CanDepositResponse { can_deposit: false }))
    );
}

#[test]
fn an_empty_vault_lists_nothing() {
    let vault = fresh();
    assert_eq!(get_allowances(&vault), AllowancesResponse { spenders: vec![], amounts: vec![] });
    assert_eq!(get_deposit_addresses(&vault).addresses, vec!["owner".to_string()]);
}
