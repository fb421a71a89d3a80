//! The vault: its own record, the deposit whitelist and the allowance ledger.

use crate::ledger::Ledger;
use vstd::prelude::*;

verus! {

/// The vault's own record.
#[derive(Clone, Debug, PartialEq, Eq)]
pub struct State {
    /// The identity that alone may administer the vault.
    pub owner: String,
    /// A label, for people.
    pub name: String,
    /// What was deposited and has neither been withdrawn nor claimed.
    pub total_amount: u128,
    /// The one unit that the vault accepts.
    pub expected_denom: String,
}

/// The vault's record as contracts speak of it.
pub struct StateView {
    pub owner: Seq<char>,
    pub name: Seq<char>,
    pub total_amount: u128,
    pub expected_denom: Seq<char>,
}

impl View for State {
    type V = StateView;

    open spec fn view(&self) -> StateView {
        StateView {
            owner: self.owner@,
            name: self.name@,
            total_amount: self.total_amount,
            expected_denom: self.expected_denom@,
        }
    }
}

/// A vault as contracts speak of it.
///
/// An identity may deposit exactly when `deposit_addresses` has it as a key;
/// the number under the key counts what it has deposited since it was last
/// added. `allowances` holds, under each spender, the amount that the spender
/// may claim.
#[verifier::ext_equal]
pub struct VaultView {
    pub state: StateView,
    pub deposit_addresses: Map<Seq<char>, u128>,
    pub allowances: Map<Seq<char>, u128>,
}

/// A vault. Every operation takes it by reference; nothing else holds its
/// data.
pub struct Vault {
    pub(crate) state: State,
    pub(crate) deposit_addresses: Ledger,
    pub(crate) allowances: Ledger,
}

impl View for Vault {
    type V = VaultView;

    closed spec fn view(&self) -> VaultView {
        VaultView {
            state: self.state@,
            deposit_addresses: self.deposit_addresses@,
            allowances: self.allowances@,
        }
    }
}

impl Vault {
    /// The vault that holds the given record, whitelist and allowances, such
    /// as one that was stored away.
    pub fn restore(state: State, deposit_addresses: Ledger, allowances: Ledger) -> (vault: Vault)
        ensures
            vault@ == (VaultView {
                state: state@,
                deposit_addresses: deposit_addresses@,
                allowances: allowances@,
            }),
    {
        Vault { state, deposit_addresses, allowances }
    }

    /// The vault's own record.
    pub fn state(&self) -> (state: &State)
        ensures
            state@ == self@.state,
    {
        &self.state
    }

    /// The deposit whitelist.
    pub fn deposit_addresses(&self) -> (ledger: &Ledger)
        ensures
            ledger@ == self@.deposit_addresses,
    {
        &self.deposit_addresses
    }

    /// The allowance ledger.
    pub fn allowances(&self) -> (ledger: &Ledger)
        ensures
            ledger@ == self@.allowances,
    {
        &self.allowances
    }

    /// Sets the running total.
    pub(crate) fn set_total_amount(&mut self, total_amount: u128)
        ensures
            final(self)@ == (VaultView {
                state: StateView { total_amount, ..old(self)@.state },
                ..old(self)@
            }),
    {
        self.state.total_amount = total_amount;
    }

    /// Sets the label.
    pub(crate) fn set_name(&mut self, name: String)
        ensures
            final(self)@ == (VaultView { state: StateView { name: name@, ..old(self)@.state }, ..old(self)@ }),
    {
        self.state.name = name;
    }

    /// Sets the owner.
    pub(crate) fn set_owner(&mut self, owner: String)
        ensures
            final(self)@ == (VaultView { state: StateView { owner: owner@, ..old(self)@.state }, ..old(self)@ }),
    {
        self.state.owner = owner;
    }

    /// Puts `address` on the whitelist with the counter `amount`, in place of
    /// the counter that it had.
    pub(crate) fn set_deposit_address(&mut self, address: String, amount: u128)
        ensures
            final(self)@ == (VaultView {
                deposit_addresses: old(self)@.deposit_addresses.insert(address@, amount),
                ..old(self)@
            }),
    {
        self.deposit_addresses.set(address, amount);
    }

    /// Takes `address` off the whitelist.
    pub(crate) fn strike_deposit_address(&mut self, address: &str)
        ensures
            final(self)@ == (VaultView {
                deposit_addresses: old(self)@.deposit_addresses.remove(address@),
                ..old(self)@
            }),
    {
        self.deposit_addresses.remove(address);
    }

    /// Books the allowance `amount` for `spender`, in place of the one that it
    /// had.
    pub(crate) fn set_allowance(&mut self, spender: String, amount: u128)
        ensures
            final(self)@ == (VaultView {
                allowances: old(self)@.allowances.insert(spender@, amount),
                ..old(self)@
            }),
    {
        self.allowances.set(spender, amount);
    }

    /// Strikes the allowance of `spender`.
    pub(crate) fn strike_allowance(&mut self, spender: &str)
        ensures
            final(self)@ == (VaultView { allowances: old(self)@.allowances.remove(spender@), ..old(self)@ }),
    {
        self.allowances.remove(spender);
    }
}

} // verus!
