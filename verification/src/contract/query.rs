//! The questions that leave the vault as it is. Anybody may ask them.

use crate::chain::texts_view;
use crate::error::{StdError, StdErrorView};
use crate::ledger::lists;
use crate::msg::{
    AllowanceResponse, AllowanceResponseView, AllowancesResponse, CanDepositResponse, DepositAddressesResponse,
    StateResponse,
};
use crate::state::Vault;
use vstd::prelude::*;

verus! {

/// The vault's own record.
pub fn get_state(vault: &Vault) -> (response: StateResponse)
    ensures
        response@ == vault@.state_response(),
{
    let current_state = vault.state();
    StateResponse {
        owner: current_state.owner.clone(),
        name: current_state.name.clone(),
        total_amount: current_state.total_amount,
        expected_denom: current_state.expected_denom.clone(),
    }
}

/// The allowance of `spender`, or that none was found.
pub fn get_allowance(vault: &Vault, spender: String) -> (result: Result<AllowanceResponse, StdError>)
    ensures
        match result {
            Ok(response) => vault@.allowance_response(spender@) == Ok::<AllowanceResponseView, StdErrorView>(
                response@,
            ),
            Err(error) => vault@.allowance_response(spender@) == Err::<AllowanceResponseView, StdErrorView>(
                error@,
            ),
        },
{
    match vault.allowances().get(spender.as_str()) {
        Some(amount) => Ok(AllowanceResponse { spender, amount }),
        None => Err(StdError::NotFound { kind: "allowance".to_owned() }),
    }
}

/// All allowances: the spenders in ascending order, and each one's allowance
/// at the spender's place.
pub fn get_allowances(vault: &Vault) -> (response: AllowancesResponse)
    ensures
        vault@.reports_allowances(response@),
{
    let ledger = vault.allowances();
    let spenders = ledger.addresses();
    let ghost names = texts_view(spenders@);
    let mut amounts: Vec<u128> = Vec::new();
    let mut i: usize = 0;
    while i < spenders.len()
        invariant
            i <= spenders@.len(),
            amounts@.len() == i,
            names == texts_view(spenders@),
            lists(names, ledger@.dom()),
            forall|j: int| 0 <= j < i ==> amounts@[j] == ledger@[#[trigger] names[j]],
        decreases spenders@.len() - i,
    {
        assert(names[i as int] == spenders@[i as int]@);
        assert(names.contains(names[i as int]));
        let amount = ledger.get(spenders[i].as_str());
        amounts.push(amount.unwrap());
        i += 1;
    }
    AllowancesResponse { spenders, amounts }
}

/// Whether `address` may deposit.
pub fn can_deposit(vault: &Vault, address: String) -> (response: CanDepositResponse)
    ensures
        response.can_deposit == vault@.can_deposit(address@),
{
    let address_amount = vault.deposit_addresses().get(address.as_str());
    match address_amount {
        Some(_) => CanDepositResponse { can_deposit: true },
        None => CanDepositResponse { can_deposit: false },
    }
}

/// The identities that may deposit, in ascending order.
pub fn get_deposit_addresses(vault: &Vault) -> (response: DepositAddressesResponse)
    ensures
        vault@.reports_deposit_addresses(texts_view(response.addresses@)),
{
    DepositAddressesResponse { addresses: vault.deposit_addresses().addresses() }
}

} // verus!
