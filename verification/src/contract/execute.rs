//! The operations that may change the vault. Each one either succeeds and
//! hands back a response, or is refused and leaves the vault as it was.

use crate::amount::{amount_text, credit, debit};
use crate::chain::{
    accepted, coins_view, texts_view, BankMsg, BankMsgView, Coin, CoinView, MessageInfo, Response,
};
use crate::error::{ContractError, ContractErrorView};
use crate::model::{first_of_denom, first_rejected, granted, result_view};
use crate::state::{Vault, VaultView};
use vstd::prelude::*;

verus! {

/// Lets the owner pass and refuses everybody else.
pub fn require_owner(vault: &Vault, sender: &String) -> (result: Result<(), ContractError>)
    ensures
        match result {
            Ok(_) => sender@ == vault@.state.owner,
            Err(error) => sender@ != vault@.state.owner && error@ == (ContractErrorView::NotOwner {
                owner: vault@.state.owner,
            }),
        },
{
    let state = vault.state();
    if *sender == state.owner {
        Ok(())
    } else {
        Err(ContractError::NotOwner { owner: state.owner.clone() })
    }
}

/// The place of the first coin of `denom` among `funds`, if there is one.
pub fn find_coin(funds: &Vec<Coin>, denom: &String) -> (found: Option<usize>)
    ensures
        match found {
            Some(i) => {
                &&& i < funds@.len()
                &&& funds@[i as int].denom@ == denom@
                &&& forall|j: int| 0 <= j < i ==> funds@[j].denom@ != denom@
                &&& first_of_denom(coins_view(funds@), denom@, 0) == Some(funds@[i as int]@)
            },
            None => {
                &&& forall|j: int| 0 <= j < funds@.len() ==> funds@[j].denom@ != denom@
                &&& first_of_denom(coins_view(funds@), denom@, 0) is None
            },
        },
{
    let mut i: usize = 0;
    while i < funds.len()
        invariant
            i <= funds@.len(),
            forall|j: int| 0 <= j < i ==> funds@[j].denom@ != denom@,
            first_of_denom(coins_view(funds@), denom@, 0) == first_of_denom(coins_view(funds@), denom@, i as int),
        decreases funds@.len() - i,
    {
        assert(coins_view(funds@)[i as int] == funds@[i as int]@);
        if funds[i].denom == *denom {
            return Some(i);
        }
        i += 1;
    }
    None
}

/// Takes a deposit from the sender: the first coin of the vault's unit among
/// the funds.
pub fn deposit_token(vault: &mut Vault, info: MessageInfo) -> (result: Result<Response, ContractError>)
    ensures
        final(vault)@ == old(vault)@.deposit(info@).vault,
        result_view(result) == old(vault)@.deposit(info@).result,
{
    let found = find_coin(&info.funds, &vault.state().expected_denom);
    match found {
        None => Err(ContractError::InvalidDenom { denom: vault.state().expected_denom.clone() }),
        Some(i) => {
            let amount = info.funds[i].amount;
            match vault.deposit_addresses().get(info.sender.as_str()) {
                None => Err(ContractError::UnauthorizedDepositAddress { address: info.sender }),
                Some(value) => {
                    vault.set_deposit_address(info.sender.clone(), credit(value, amount));
                    let total_amount = credit(vault.state().total_amount, amount);
                    vault.set_total_amount(total_amount);
                    let response = Response::new().add_attribute("action", "deposit".to_owned()).add_attribute(
                        "address",
                        info.sender,
                    ).add_attribute("amount", amount_text(amount));
                    assert(vault@ =~= old(vault)@.deposit(info@).vault);
                    Ok(response)
                },
            }
        },
    }
}

/// Puts `deposit_address` on the deposit whitelist. `valid` says whether the
/// chain accepts the text as an address.
pub fn add_deposit_address(vault: &mut Vault, info: MessageInfo, deposit_address: String, valid: bool) -> (result:
    Result<Response, ContractError>)
    ensures
        final(vault)@ == old(vault)@.add_deposit_address(info@.sender, deposit_address@, valid).vault,
        result_view(result) == old(vault)@.add_deposit_address(info@.sender, deposit_address@, valid).result,
{
    match require_owner(vault, &info.sender) {
        Err(error) => {
            return Err(error);
        },
        Ok(_) => {},
    }
    if !valid {
        return Err(ContractError::NotValidAddress { address: deposit_address });
    }
    vault.set_deposit_address(deposit_address.clone(), 0);
    Ok(
        Response::new().add_attribute("action", "add_deposit_address".to_owned()).add_attribute(
            "address",
            deposit_address,
        ),
    )
}

/// Takes `deposit_address` off the deposit whitelist. `valid` says whether
/// the chain accepts the text as an address.
pub fn remove_deposit_address(vault: &mut Vault, info: MessageInfo, deposit_address: String, valid: bool) -> (result:
    Result<Response, ContractError>)
    ensures
        final(vault)@ == old(vault)@.remove_deposit_address(info@.sender, deposit_address@, valid).vault,
        result_view(result) == old(vault)@.remove_deposit_address(info@.sender, deposit_address@, valid).result,
{
    match require_owner(vault, &info.sender) {
        Err(error) => {
            return Err(error);
        },
        Ok(_) => {},
    }
    if !valid {
        return Err(ContractError::NotValidAddress { address: deposit_address });
    }
    vault.strike_deposit_address(deposit_address.as_str());
    Ok(
        Response::new().add_attribute("action", "remove_deposit_address".to_owned()).add_attribute(
            "address",
            deposit_address,
        ),
    )
}

/// Sweeps the vault: instructs the chain to send `balance`, which is all that
/// the vault's account holds, to the owner, and sets the total to zero.
pub fn withdraw(vault: &mut Vault, info: MessageInfo, balance: Vec<Coin>) -> (result: Result<
    Response,
    ContractError,
>)
    ensures
        final(vault)@ == old(vault)@.withdraw(info@.sender, coins_view(balance@)).vault,
        result_view(result) == old(vault)@.withdraw(info@.sender, coins_view(balance@)).result,
{
    match require_owner(vault, &info.sender) {
        Err(error) => {
            return Err(error);
        },
        Ok(_) => {},
    }
    let bank_msg = BankMsg::Send { to_address: info.sender, amount: balance };
    vault.set_total_amount(0);
    Ok(Response::new().add_message(bank_msg).add_attribute("action", "withdraw".to_owned()))
}

/// Gives `spender` the allowance `amount`. `valid` says whether the chain
/// accepts the text as an address.
pub fn add_allowance(vault: &mut Vault, info: MessageInfo, spender: String, valid: bool, amount: u128) -> (result:
    Result<Response, ContractError>)
    ensures
        final(vault)@ == old(vault)@.add_allowance(info@.sender, spender@, valid, amount).vault,
        result_view(result) == old(vault)@.add_allowance(info@.sender, spender@, valid, amount).result,
{
    match require_owner(vault, &info.sender) {
        Err(error) => {
            return Err(error);
        },
        Ok(_) => {},
    }
    if !valid {
        return Err(ContractError::NotValidAddress { address: spender });
    }
    vault.set_allowance(spender.clone(), amount);
    Ok(
        Response::new().add_attribute("action", "add_allowance".to_owned()).add_attribute(
            "spender",
            spender,
        ).add_attribute("amount", amount_text(amount)),
    )
}

/// Gives each of `spenders` the allowance at its place of `amounts`. `valid`
/// says of each spender, at its place, whether the chain accepts the text as
/// an address; a spender without an answer counts as not accepted.
#[verifier::loop_isolation(false)]
pub fn add_allowance_list(
    vault: &mut Vault,
    info: MessageInfo,
    spenders: Vec<String>,
    valid: Vec<bool>,
    amounts: Vec<u128>,
) -> (result: Result<Response, ContractError>)
    ensures
        final(vault)@ == old(vault)@.add_allowance_list(
            info@.sender,
            texts_view(spenders@),
            valid@,
            amounts@,
        ).vault,
        result_view(result) == old(vault)@.add_allowance_list(
            info@.sender,
            texts_view(spenders@),
            valid@,
            amounts@,
        ).result,
{
    match require_owner(vault, &info.sender) {
        Err(error) => {
            return Err(error);
        },
        Ok(_) => {},
    }
    if spenders.len() != amounts.len() {
        return Err(ContractError::AllowanceAddressesAmountsNotEqual {  });
    }
    let ghost names = texts_view(spenders@);
    let mut i: usize = 0;
    while i < spenders.len()
        invariant
            i <= spenders@.len(),
            names == texts_view(spenders@),
            first_rejected(valid@, 0, names.len() as int) == first_rejected(valid@, i as int, names.len() as int),
        decreases spenders@.len() - i,
    {
        if !(i < valid.len() && valid[i]) {
            assert(names[i as int] == spenders@[i as int]@);
            assert(!accepted(valid@, i as int));
            assert(first_rejected(valid@, i as int, names.len() as int) == Some(i as int));
            return Err(ContractError::NotValidAddress { address: spenders[i].clone() });
        }
        i += 1;
    }
    let ghost before = vault@;
    let mut i: usize = 0;
    while i < spenders.len()
        invariant
            i <= spenders@.len(),
            spenders@.len() == amounts@.len(),
            names == texts_view(spenders@),
            vault@ == (VaultView { allowances: vault@.allowances, ..before }),
            granted(before.allowances, names, amounts@, 0) == granted(vault@.allowances, names, amounts@, i as int),
        decreases spenders@.len() - i,
    {
        assert(names[i as int] == spenders@[i as int]@);
        vault.set_allowance(spenders[i].clone(), amounts[i]);
        i += 1;
    }
    Ok(Response::new().add_attribute("action", "add_allowance_list".to_owned()))
}

/// Strikes the allowance of `spender`. `valid` says whether the chain accepts
/// the text as an address.
pub fn remove_allowance(vault: &mut Vault, info: MessageInfo, spender: String, valid: bool) -> (result: Result<
    Response,
    ContractError,
>)
    ensures
        final(vault)@ == old(vault)@.remove_allowance(info@.sender, spender@, valid).vault,
        result_view(result) == old(vault)@.remove_allowance(info@.sender, spender@, valid).result,
{
    match require_owner(vault, &info.sender) {
        Err(error) => {
            return Err(error);
        },
        Ok(_) => {},
    }
    if !valid {
        return Err(ContractError::NotValidAddress { address: spender });
    }
    vault.strike_allowance(spender.as_str());
    Ok(Response::new().add_attribute("action", "remove_allowance".to_owned()).add_attribute("spender", spender))
}

/// Changes the allowance of `spender` to `amount`. `valid` says whether the
/// chain accepts the text as an address.
pub fn update_allowance(vault: &mut Vault, info: MessageInfo, spender: String, valid: bool, amount: u128) -> (result:
    Result<Response, ContractError>)
    ensures
        final(vault)@ == old(vault)@.update_allowance(info@.sender, spender@, valid, amount).vault,
        result_view(result) == old(vault)@.update_allowance(info@.sender, spender@, valid, amount).result,
{
    match require_owner(vault, &info.sender) {
        Err(error) => {
            return Err(error);
        },
        Ok(_) => {},
    }
    if !valid {
        return Err(ContractError::NotValidAddress { address: spender });
    }
    vault.set_allowance(spender.clone(), amount);
    Ok(
        Response::new().add_attribute("action", "update_allowance".to_owned()).add_attribute(
            "spender",
            spender,
        ).add_attribute("amount", amount_text(amount)),
    )
}

/// Pays the sender its allowance: instructs the chain to send the whole
/// allowance, in the vault's unit, to the sender, and takes it from the total
/// where the total covers it.
pub fn retrieve_allowance(vault: &mut Vault, info: MessageInfo) -> (result: Result<Response, ContractError>)
    ensures
        final(vault)@ == old(vault)@.retrieve_allowance(info@.sender).vault,
        result_view(result) == old(vault)@.retrieve_allowance(info@.sender).result,
{
    let allowance = match vault.allowances().get(info.sender.as_str()) {
        Some(value) => value,
        None => {
            return Err(ContractError::NoAllowance { address: info.sender });
        },
    };
    let total_amount = debit(vault.state().total_amount, allowance);
    vault.set_total_amount(total_amount);
    let mut amount: Vec<Coin> = Vec::new();
    amount.push(Coin { denom: vault.state().expected_denom.clone(), amount: allowance });
    let bank_msg = BankMsg::Send { to_address: info.sender.clone(), amount };
    assert(bank_msg@ == (BankMsgView::Send {
        to_address: info@.sender,
        amount: seq![CoinView { denom: old(vault)@.state.expected_denom, amount: allowance }],
    })) by {
        assert(coins_view(amount@) =~= seq![CoinView { denom: old(vault)@.state.expected_denom, amount: allowance }]);
    }
    Ok(
        Response::new().add_message(bank_msg).add_attribute(
            "action",
            "retrieve_allowance".to_owned(),
        ).add_attribute("address", info.sender).add_attribute("amount", amount_text(allowance)),
    )
}

/// Gives the vault another label.
pub fn update_name(vault: &mut Vault, info: MessageInfo, name: String) -> (result: Result<Response, ContractError>)
    ensures
        final(vault)@ == old(vault)@.update_name(info@.sender, name@).vault,
        result_view(result) == old(vault)@.update_name(info@.sender, name@).result,
{
    match require_owner(vault, &info.sender) {
        Err(error) => {
            return Err(error);
        },
        Ok(_) => {},
    }
    vault.set_name(name);
    Ok(Response::new().add_attribute("action", "update_name".to_owned()))
}

/// Hands the vault over to `owner`. `valid` says whether the chain accepts
/// the text as an address.
pub fn update_owner(vault: &mut Vault, info: MessageInfo, owner: String, valid: bool) -> (result: Result<
    Response,
    ContractError,
>)
    ensures
        final(vault)@ == old(vault)@.update_owner(info@.sender, owner@, valid).vault,
        result_view(result) == old(vault)@.update_owner(info@.sender, owner@, valid).result,
{
    match require_owner(vault, &info.sender) {
        Err(error) => {
            return Err(error);
        },
        Ok(_) => {},
    }
    if !valid {
        return Err(ContractError::NotValidAddress { address: owner });
    }
    vault.set_owner(owner.clone());
    Ok(Response::new().add_attribute("action", "update_owner".to_owned()).add_attribute("owner", owner))
}

} // verus!
