//! A custodial fund vault: one pool of deposited value in a single unit, a
//! whitelist of identities that may deposit, and a ledger of allowances that the
//! owner grants and the spenders claim themselves.
//!
//! The vault is a value that every operation takes by reference. What the
//! surrounding chain has to answer (whether a text is a well-formed address, what
//! the vault's account holds) is handed in as plain values, and what the chain
//! has to carry out (a transfer) is handed back in the response.

pub mod amount;
pub mod chain;
pub mod contract;
pub mod error;
pub mod laws;
pub mod ledger;
pub mod model;
pub mod msg;
pub mod state;
pub mod text;

use crate::chain::{accepted, Answers, MessageInfo, Response, ResponseView};
use crate::contract::instantiate_contract;
use crate::error::{ContractError, StdError};
use crate::model::{answer_view, result_view};
use crate::msg::{ExecuteMsg, InstantiateMsg, QueryMsg, QueryResponse};
use crate::state::{Vault, VaultView};
use vstd::prelude::*;

verus! {

/// Sets a vault up, with the sender of `info` as its owner.
pub fn instantiate(info: MessageInfo, msg: InstantiateMsg) -> (made: (Vault, Response))
    ensures
        made.0@ == VaultView::instantiated(info@.sender, msg.name@, msg.expected_denom@),
        made.1@ == ResponseView::new().add_attribute("action"@, "instantiate"@),
{
    instantiate_contract(info, msg)
}

/// Whether the chain accepted the one address that a message gives.
fn address_accepted(answers: &Answers) -> (valid: bool)
    ensures
        valid == accepted(answers@.valid, 0),
{
    answers.valid.len() > 0 && answers.valid[0]
}

/// Carries out the operation that `msg` asks for, on behalf of the sender of
/// `info`. `answers` is what the chain answered about the message.
pub fn execute(vault: &mut Vault, answers: Answers, info: MessageInfo, msg: ExecuteMsg) -> (result: Result<
    Response,
    ContractError,
>)
    ensures
        final(vault)@ == old(vault)@.execute(answers@, info@, msg@).vault,
        result_view(result) == old(vault)@.execute(answers@, info@, msg@).result,
{
    let valid = address_accepted(&answers);
    match msg {
        ExecuteMsg::Deposit {  } => contract::execute::deposit_token(vault, info),
        ExecuteMsg::AddDepositAddress { address } => contract::execute::add_deposit_address(
            vault,
            info,
            address,
            valid,
        ),
        ExecuteMsg::RemoveDepositAddress { address } => contract::execute::remove_deposit_address(
            vault,
            info,
            address,
            valid,
        ),
        ExecuteMsg::Withdraw {  } => contract::execute::withdraw(vault, info, answers.balance),
        ExecuteMsg::AddAllowance { spender, amount } => contract::execute::add_allowance(
            vault,
            info,
            spender,
            valid,
            amount,
        ),
        ExecuteMsg::AddAllowanceList { spenders, amounts } => contract::execute::add_allowance_list(
            vault,
            info,
            spenders,
            answers.valid,
            amounts,
        ),
        ExecuteMsg::RemoveAllowance { spender } => contract::execute::remove_allowance(vault, info, spender, valid),
        ExecuteMsg::UpdateAllowance { spender, amount } => contract::execute::update_allowance(
            vault,
            info,
            spender,
            valid,
            amount,
        ),
        ExecuteMsg::RetrieveAllowance {  } => contract::execute::retrieve_allowance(vault, info),
        ExecuteMsg::UpdateName { name } => contract::execute::update_name(vault, info, name),
        ExecuteMsg::UpdateOwner { owner } => contract::execute::update_owner(vault, info, owner, valid),
    }
}

/// Answers the question `msg`.
pub fn query(vault: &Vault, msg: QueryMsg) -> (result: Result<QueryResponse, StdError>)
    ensures
        vault@.answers(msg@, answer_view(result)),
{
    match msg {
        QueryMsg::GetState {  } => Ok(QueryResponse::State(contract::query::get_state(vault))),
        QueryMsg::GetAllowance { spender } => match contract::query::get_allowance(vault, spender) {
            Ok(response) => Ok(QueryResponse::Allowance(response)),
            Err(error) => Err(error),
        },
        QueryMsg::GetAllowances {  } => Ok(QueryResponse::Allowances(contract::query::get_allowances(vault))),
        QueryMsg::CanDeposit { address } => Ok(
            QueryResponse::CanDeposit(contract::query::can_deposit(vault, address)),
        ),
        QueryMsg::GetDepositAddresses {  } => Ok(
            QueryResponse::DepositAddresses(contract::query::get_deposit_addresses(vault)),
        ),
    }
}

} // verus!
