//! The vault's operations: setting it up, the operations that may change it,
//! and the questions that leave it as it is.

pub mod execute;
pub mod query;

use crate::chain::{MessageInfo, Response, ResponseView};
use crate::ledger::Ledger;
use crate::msg::InstantiateMsg;
use crate::state::{State, Vault, VaultView};
use vstd::prelude::*;

verus! {

/// Sets a vault up. The sender becomes its owner and may deposit; the vault
/// holds nothing, and nobody has an allowance.
pub fn instantiate_contract(info: MessageInfo, msg: InstantiateMsg) -> (made: (Vault, Response))
    ensures
        made.0@ == VaultView::instantiated(info@.sender, msg.name@, msg.expected_denom@),
        made.1@ == ResponseView::new().add_attribute("action"@, "instantiate"@),
{
    let initial_state = State {
        owner: info.sender.clone(),
        name: msg.name,
        total_amount: 0,
        expected_denom: msg.expected_denom,
    };
    let mut deposit_addresses = Ledger::new();
    deposit_addresses.set(info.sender, 0);
    let vault = Vault::restore(initial_state, deposit_addresses, Ledger::new());
    (vault, Response::new().add_attribute("action", "instantiate".to_owned()))
}

} // verus!
