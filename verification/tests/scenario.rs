use cosmwasm_std::testing::MockApi;
use cosmwasm_std::Api;
use vault::chain::{Answers, BankMsg, Coin, MessageInfo};
use vault::msg::{
    AllowanceResponse, AllowancesResponse, DepositAddressesResponse, ExecuteMsg, InstantiateMsg, QueryMsg,
    QueryResponse, StateResponse,
};
use vault::state::Vault;
use vault::{execute, instantiate, query};

/// A bank of one unit and the vault's own account in it, as far as these tests
/// need one.
struct Chain {
    vault: Vault,
    accounts: Vec<(String, u128)>,
    held: u128,
}

fn coins(amount: u128, denom: &str) -> Vec<Coin> {
    vec![Coin { denom: denom.to_string(), amount }]
}

impl Chain {
    fn balance_of(&self, who: &str) -> u128 {
        self.accounts.iter().find(|(name, _)| name == who).map(|(_, amount)| *amount).unwrap_or(0)
    }

    fn credit(&mut self, who: &str, amount: u128) {
        match self.accounts.iter_mut().find(|(name, _)| name == who) {
            Some(account) => account.1 += amount,
            None => self.accounts.push((who.to_string(), amount)),
        }
    }

    fn execute_contract(&mut self, sender: &str, msg: &ExecuteMsg, funds: &[Coin]) -> Result<(), String> {
        let api = MockApi::default();
        let sent: u128 = funds.iter().map(|coin| coin.amount).sum();
        if self.balance_of(sender) < sent {
            return Err("insufficient funds".to_string());
        }
        let answers = Answers {
            valid: msg.addresses().iter().map(|text| api.addr_validate(text).is_ok()).collect(),
            balance: if self.held + sent > 0 { coins(self.held + sent, "atom") } else { vec![] },
        };
        let info = MessageInfo { sender: sender.to_string(), funds: funds.to_vec() };
        let response = execute(&mut self.vault, answers, info, msg.clone()).map_err(|e| format!("{:?}", e))?;
        for account in self.accounts.iter_mut() {
            if account.0 == sender {
                account.1 -= sent;
            }
        }
        self.held += sent;
        for message in response.messages {
            let BankMsg::Send { to_address, amount } = message;
            for coin in amount {
                self.held -= coin.amount;
                self.credit(&to_address, coin.amount);
            }
        }
        Ok(())
    }

    fn state(&self) -> StateResponse {
        match query(&self.vault, QueryMsg::GetState {}).unwrap() {
            QueryResponse::State(response) => response,
            other => panic!("{:?}", other),
        }
    }

    fn allowance(&self, spender: &str) -> AllowanceResponse {
        match query(&self.vault, QueryMsg::GetAllowance { spender: spender.to_string() }).unwrap() {
            QueryResponse::Allowance(response) => response,
            other => panic!("{:?}", other),
        }
    }

    fn allowances(&self) -> AllowancesResponse {
        match query(&self.vault, QueryMsg::GetAllowances {}).unwrap() {
            QueryResponse::Allowances(response) => response,
            other => panic!("{:?}", other),
        }
    }

    fn deposit_addresses(&self) -> DepositAddressesResponse {
        match query(&self.vault, QueryMsg::GetDepositAddresses {}).unwrap() {
            QueryResponse::DepositAddresses(response) => response,
            other => panic!("{:?}", other),
        }
    }
}

#[test]
fn multitest_vault_contract() {
    // Create addresses
    let owner = "owner".to_string();
    let sender = "sender".to_string();

    // Instantiate
    let label = "Vault contract";
    let (vault, _) = instantiate(
        MessageInfo { sender: owner.clone(), funds: vec![] },
        InstantiateMsg { name: "Vault X".to_string(), expected_denom: "atom".to_string() },
    );
    let mut app = Chain { vault, accounts: vec![(sender.clone(), 100)], held: 0 };
    assert!(!label.is_empty());

    // Execute - Add deposit address
    app.execute_contract(&owner, &ExecuteMsg::AddDepositAddress { address: "sender".to_string() }, &[]).unwrap();

    // Query - Get deposit addresses
    let resp = app.deposit_addresses();

    assert_eq!(resp, DepositAddressesResponse { addresses: vec!["owner".to_string(), "sender".to_string()] },);

    // Execute - Deposit
    app.execute_contract(&sender, &ExecuteMsg::Deposit {}, &coins(10, "atom")).unwrap();

    // Query - Get token balance
    let resp = app.state();

    assert_eq!(resp.total_amount, 10u128,);

    // Execute - Remove deposit address
    app.execute_contract(&owner, &ExecuteMsg::RemoveDepositAddress { address: "sender".to_string() }, &[])
        .unwrap();

    // Query - Get deposit addresses
    let resp = app.deposit_addresses();

    assert_eq!(resp, DepositAddressesResponse { addresses: vec!["owner".to_string()] },);

    // Execute - Withdraw
    app.execute_contract(&owner, &ExecuteMsg::Withdraw {}, &[]).unwrap();

    // Query - Get token balance
    let resp = app.state();

    assert_eq!(resp.total_amount, 0u128,);

    // Execute - Add Allowance
    app.execute_contract(&owner, &ExecuteMsg::AddAllowance { spender: "sender".to_string(), amount: 5u128 }, &[])
        .unwrap();

    // Query - Get Allowance
    let resp = app.allowance("sender");

    assert_eq!(resp.spender, "sender".to_string(),);
    assert_eq!(resp.amount, 5u128,);

    // Execute - Add Allowance
    app.execute_contract(&owner, &ExecuteMsg::AddAllowance { spender: "receiver".to_string(), amount: 10u128 }, &[])
        .unwrap();

    // Query - Get Allowance List
    let resp = app.allowances();

    assert_eq!(resp.spenders, vec!["receiver".to_string(), "sender".to_string()],);
    assert_eq!(resp.amounts, vec![10u128, 5u128],);

    // Remove Allowance
    app.execute_contract(&owner, &ExecuteMsg::RemoveAllowance { spender: "receiver".to_string() }, &[]).unwrap();

    // Query - Get Allowance List
    let resp = app.allowances();

    assert_eq!(resp.spenders, vec!["sender".to_string()],);
    assert_eq!(resp.amounts, vec![5u128],);

    // Update Allowance
    app.execute_contract(&owner, &ExecuteMsg::UpdateAllowance { spender: "sender".to_string(), amount: 15u128 }, &[])
        .unwrap();

    // Query - Get Allowances
    let resp = app.allowances();

    assert_eq!(resp.spenders, vec!["sender".to_string()],);
    assert_eq!(resp.amounts, vec![15u128],);

    // Remove Allowance - The list is empty after this call
    app.execute_contract(&owner, &ExecuteMsg::RemoveAllowance { spender: "sender".to_string() }, &[]).unwrap();

    // Query - Get Allowances
    let resp = app.allowances();

    assert_eq!(resp.spenders, Vec::<String>::new(),);
    assert_eq!(resp.amounts, Vec::<u128>::new(),);

    // Create list of allowances. The spenders and amounts will be separate vectors
    let mut allowance_spenders = vec!["joel".to_string(), "ellie".to_string()];
    let mut allowance_amounts = vec![10u128, 20u128];

    // Add Allowance List
    app.execute_contract(
        &owner,
        &ExecuteMsg::AddAllowanceList { spenders: allowance_spenders.clone(), amounts: allowance_amounts.clone() },
        &[],
    )
    .unwrap();

    // Query - Get Allowance List
    let resp = app.allowances();

    allowance_spenders.reverse();
    allowance_amounts.reverse();

    assert_eq!(resp.spenders, allowance_spenders,);
    assert_eq!(resp.amounts, allowance_amounts,);

    // Execute - Deposit
    app.execute_contract(&owner, &ExecuteMsg::Deposit {}, &coins(10, "atom")).unwrap();

    // Execute - Add Allowance
    app.execute_contract(&owner, &ExecuteMsg::AddAllowance { spender: "ellie".to_string(), amount: 10u128 }, &[])
        .unwrap();

    // Retrieve Allowance
    app.execute_contract("ellie", &ExecuteMsg::RetrieveAllowance {}, &[]).unwrap();

    // Query - Get token balance
    let resp = app.state();

    assert_eq!(resp.total_amount, 0u128,);
}

#[test]
fn the_bank_follows_the_transfer_instructions() {
    let (vault, _) = instantiate(
        MessageInfo { sender: "owner".to_string(), funds: vec![] },
        InstantiateMsg { name: "Vault X".to_string(), expected_denom: "atom".to_string() },
    );
    let mut app = Chain { vault, accounts: vec![("owner".to_string(), 100)], held: 0 };
    app.execute_contract("owner", &ExecuteMsg::Deposit {}, &coins(30, "atom")).unwrap();
    assert_eq!(app.held, 30);
    assert_eq!(app.balance_of("owner"), 70);
    app.execute_contract("owner", &ExecuteMsg::AddAllowance { spender: "ellie".to_string(), amount: 10 }, &[])
        .unwrap();
    app.execute_contract("ellie", &ExecuteMsg::RetrieveAllowance {}, &[]).unwrap();
    assert_eq!(app.held, 20);
    assert_eq!(app.balance_of("ellie"), 10);
    assert_eq!(app.state().total_amount, 20);
    app.execute_contract("owner", &ExecuteMsg::Withdraw {}, &[]).unwrap();
    assert_eq!(app.held, 0);
    assert_eq!(app.balance_of("owner"), 90);
    assert_eq!(app.state().total_amount, 0);
}

#[test]
fn an_address_that_the_chain_rejects_is_refused() {
    let (vault, _) = instantiate(
        MessageInfo { sender: "owner".to_string(), funds: vec![] },
        InstantiateMsg { name: "Vault X".to_string(), expected_denom: "atom".to_string() },
    );
    let mut app = Chain { vault, accounts: vec![], held: 0 };
    // Too short for the mock chain's address check.
    let refused = app.execute_contract("owner", &ExecuteMsg::AddDepositAddress { address: "ab".to_string() }, &[]);
    assert_eq!(refused, Err("NotValidAddress { address: \"ab\" }".to_string()));
    assert_eq!(app.deposit_addresses().addresses, vec!["owner".to_string()]);
}
