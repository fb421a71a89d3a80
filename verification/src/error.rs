//! Why an operation of the vault fails.

use vstd::prelude::*;

verus! {

/// A failure that is not one of the vault's own rules: something was not
/// found, or the surrounding chain reported a fault.
#[derive(Clone, Debug, PartialEq, Eq)]
pub enum StdError {
    GenericErr { msg: String },
    NotFound { kind: String },
}

/// A general failure as contracts speak of it.
pub enum StdErrorView {
    GenericErr { msg: Seq<char> },
    NotFound { kind: Seq<char> },
}

impl View for StdError {
    type V = StdErrorView;

    open spec fn view(&self) -> StdErrorView {
        match self {
            StdError::GenericErr { msg } => StdErrorView::GenericErr { msg: msg@ },
            StdError::NotFound { kind } => StdErrorView::NotFound { kind: kind@ },
        }
    }
}

/// Why an operation was refused. A refused operation changes nothing.
#[derive(Clone, Debug, PartialEq, Eq)]
pub enum ContractError {
    /// A failure below the vault's own rules, passed on as it came.
    Std(StdError),
    /// The caller is not the owner; `owner` is.
    NotOwner { owner: String },
    /// The caller is not on the deposit whitelist.
    UnauthorizedDepositAddress { address: String },
    /// The caller has no allowance.
    NoAllowance { address: String },
    ZeroAllowance { address: String },
    NotEnoughAllowance { address: String },
    /// A list of spenders and a list of amounts differ in length.
    AllowanceAddressesAmountsNotEqual {},
    NotEnoughFunds { total_amount: u128 },
    DepositAddressExists { id: u64 },
    AllowanceExists { address: String },
    /// The text is not a well-formed address.
    NotValidAddress { address: String },
    /// No coin of the vault's unit came with the deposit; `denom` is that unit.
    InvalidDenom { denom: String },
}

/// A refusal as contracts speak of it.
pub enum ContractErrorView {
    Std(StdErrorView),
    NotOwner { owner: Seq<char> },
    UnauthorizedDepositAddress { address: Seq<char> },
    NoAllowance { address: Seq<char> },
    ZeroAllowance { address: Seq<char> },
    NotEnoughAllowance { address: Seq<char> },
    AllowanceAddressesAmountsNotEqual {},
    NotEnoughFunds { total_amount: u128 },
    DepositAddressExists { id: u64 },
    AllowanceExists { address: Seq<char> },
    NotValidAddress { address: Seq<char> },
    InvalidDenom { denom: Seq<char> },
}

impl View for ContractError {
    type V = ContractErrorView;

    open spec fn view(&self) -> ContractErrorView {
        match self {
            ContractError::Std(error) => ContractErrorView::Std(error@),
            ContractError::NotOwner { owner } => ContractErrorView::NotOwner { owner: owner@ },
            ContractError::UnauthorizedDepositAddress { address } => ContractErrorView::UnauthorizedDepositAddress {
                address: address@,
            },
            ContractError::NoAllowance { address } => ContractErrorView::NoAllowance { address: address@ },
            ContractError::ZeroAllowance { address } => ContractErrorView::ZeroAllowance { address: address@ },
            ContractError::NotEnoughAllowance { address } => ContractErrorView::NotEnoughAllowance {
                address: address@,
            },
            ContractError::AllowanceAddressesAmountsNotEqual {  } => ContractErrorView::AllowanceAddressesAmountsNotEqual {  },
            ContractError::NotEnoughFunds { total_amount } => ContractErrorView::NotEnoughFunds {
                total_amount: *total_amount,
            },
            ContractError::DepositAddressExists { id } => ContractErrorView::DepositAddressExists { id: *id },
            ContractError::AllowanceExists { address } => ContractErrorView::AllowanceExists { address: address@ },
            ContractError::NotValidAddress { address } => ContractErrorView::NotValidAddress { address: address@ },
            ContractError::InvalidDenom { denom } => ContractErrorView::InvalidDenom { denom: denom@ },
        }
    }
}

} // verus!
