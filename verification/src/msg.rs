//! The messages that the vault takes and the answers that its queries give.

use crate::chain::texts_view;
use vstd::prelude::*;

verus! {

/// Sets a vault up: its label and the one unit that it accepts.
#[derive(Clone, Debug, PartialEq, Eq)]
pub struct InstantiateMsg {
    pub name: String,
    pub expected_denom: String,
}

/// An operation that may change the vault.
#[derive(Clone, Debug, PartialEq, Eq)]
pub enum ExecuteMsg {
    Deposit {},
    AddDepositAddress { address: String },
    RemoveDepositAddress { address: String },
    Withdraw {},
    AddAllowance { spender: String, amount: u128 },
    AddAllowanceList { spenders: Vec<String>, amounts: Vec<u128> },
    RemoveAllowance { spender: String },
    UpdateAllowance { spender: String, amount: u128 },
    RetrieveAllowance {},
    UpdateName { name: String },
    UpdateOwner { owner: String },
}

/// An operation as contracts speak of it.
pub enum ExecuteMsgView {
    Deposit {},
    AddDepositAddress { address: Seq<char> },
    RemoveDepositAddress { address: Seq<char> },
    Withdraw {},
    AddAllowance { spender: Seq<char>, amount: u128 },
    AddAllowanceList { spenders: Seq<Seq<char>>, amounts: Seq<u128> },
    RemoveAllowance { spender: Seq<char> },
    UpdateAllowance { spender: Seq<char>, amount: u128 },
    RetrieveAllowance {},
    UpdateName { name: Seq<char> },
    UpdateOwner { owner: Seq<char> },
}

impl View for ExecuteMsg {
    type V = ExecuteMsgView;

    open spec fn view(&self) -> ExecuteMsgView {
        match self {
            ExecuteMsg::Deposit {  } => ExecuteMsgView::Deposit {  },
            ExecuteMsg::AddDepositAddress { address } => ExecuteMsgView::AddDepositAddress { address: address@ },
            ExecuteMsg::RemoveDepositAddress { address } => ExecuteMsgView::RemoveDepositAddress {
                address: address@,
            },
            ExecuteMsg::Withdraw {  } => ExecuteMsgView::Withdraw {  },
            ExecuteMsg::AddAllowance { spender, amount } => ExecuteMsgView::AddAllowance {
                spender: spender@,
                amount: *amount,
            },
            ExecuteMsg::AddAllowanceList { spenders, amounts } => ExecuteMsgView::AddAllowanceList {
                spenders: texts_view(spenders@),
                amounts: amounts@,
            },
            ExecuteMsg::RemoveAllowance { spender } => ExecuteMsgView::RemoveAllowance { spender: spender@ },
            ExecuteMsg::UpdateAllowance { spender, amount } => ExecuteMsgView::UpdateAllowance {
                spender: spender@,
                amount: *amount,
            },
            ExecuteMsg::RetrieveAllowance {  } => ExecuteMsgView::RetrieveAllowance {  },
            ExecuteMsg::UpdateName { name } => ExecuteMsgView::UpdateName { name: name@ },
            ExecuteMsg::UpdateOwner { owner } => ExecuteMsgView::UpdateOwner { owner: owner@ },
        }
    }
}

impl ExecuteMsgView {
    /// The texts that the operation gives as addresses, in the order in which
    /// the chain is asked about them.
    pub open spec fn addresses(self) -> Seq<Seq<char>> {
        match self {
            ExecuteMsgView::AddDepositAddress { address } => seq![address],
            ExecuteMsgView::RemoveDepositAddress { address } => seq![address],
            ExecuteMsgView::AddAllowance { spender, .. } => seq![spender],
            ExecuteMsgView::AddAllowanceList { spenders, .. } => spenders,
            ExecuteMsgView::RemoveAllowance { spender } => seq![spender],
            ExecuteMsgView::UpdateAllowance { spender, .. } => seq![spender],
            ExecuteMsgView::UpdateOwner { owner } => seq![owner],
            _ => Seq::empty(),
        }
    }
}

impl ExecuteMsg {
    /// The texts that the operation gives as addresses, in the order in which
    /// the chain is asked about them.
    pub fn addresses(&self) -> (texts: Vec<String>)
        ensures
            texts_view(texts@) == self@.addresses(),
    {
        let mut texts: Vec<String> = Vec::new();
        match self {
            ExecuteMsg::AddDepositAddress { address } => {
                texts.push(address.clone());
            },
            ExecuteMsg::RemoveDepositAddress { address } => {
                texts.push(address.clone());
            },
            ExecuteMsg::AddAllowance { spender, amount: _ } => {
                texts.push(spender.clone());
            },
            ExecuteMsg::AddAllowanceList { spenders, amounts: _ } => {
                texts = spenders.clone();
            },
            ExecuteMsg::RemoveAllowance { spender } => {
                texts.push(spender.clone());
            },
            ExecuteMsg::UpdateAllowance { spender, amount: _ } => {
                texts.push(spender.clone());
            },
            ExecuteMsg::UpdateOwner { owner } => {
                texts.push(owner.clone());
            },
            _ => {},
        }
        assert(texts_view(texts@) =~= self@.addresses());
        texts
    }

    /// Whether the operation reads what the vault's account holds.
    pub fn reads_balance(&self) -> (reads: bool)
        ensures
            reads == (self@ is Withdraw),
    {
        match self {
            ExecuteMsg::Withdraw {  } => true,
            _ => false,
        }
    }
}

/// A question that leaves the vault as it is.
#[derive(Clone, Debug, PartialEq, Eq)]
pub enum QueryMsg {
    GetState {},
    GetAllowance { spender: String },
    GetAllowances {},
    CanDeposit { address: String },
    GetDepositAddresses {},
}

/// A question as contracts speak of it.
pub enum QueryMsgView {
    GetState {},
    GetAllowance { spender: Seq<char> },
    GetAllowances {},
    CanDeposit { address: Seq<char> },
    GetDepositAddresses {},
}

impl View for QueryMsg {
    type V = QueryMsgView;

    open spec fn view(&self) -> QueryMsgView {
        match self {
            QueryMsg::GetState {  } => QueryMsgView::GetState {  },
            QueryMsg::GetAllowance { spender } => QueryMsgView::GetAllowance { spender: spender@ },
            QueryMsg::GetAllowances {  } => QueryMsgView::GetAllowances {  },
            QueryMsg::CanDeposit { address } => QueryMsgView::CanDeposit { address: address@ },
            QueryMsg::GetDepositAddresses {  } => QueryMsgView::GetDepositAddresses {  },
        }
    }
}

/// The vault's own record.
#[derive(Clone, Debug, PartialEq, Eq)]
pub struct StateResponse {
    pub owner: String,
    pub name: String,
    pub total_amount: u128,
    pub expected_denom: String,
}

/// The vault's record as contracts speak of it.
pub struct StateResponseView {
    pub owner: Seq<char>,
    pub name: Seq<char>,
    pub total_amount: u128,
    pub expected_denom: Seq<char>,
}

impl View for StateResponse {
    type V = StateResponseView;

    open spec fn view(&self) -> StateResponseView {
        StateResponseView {
            owner: self.owner@,
            name: self.name@,
            total_amount: self.total_amount,
            expected_denom: self.expected_denom@,
        }
    }
}

/// One spender's allowance.
#[derive(Clone, Debug, PartialEq, Eq)]
pub struct AllowanceResponse {
    pub spender: String,
    pub amount: u128,
}

/// One spender's allowance as contracts speak of it.
pub struct AllowanceResponseView {
    pub spender: Seq<char>,
    pub amount: u128,
}

impl View for AllowanceResponse {
    type V = AllowanceResponseView;

    open spec fn view(&self) -> AllowanceResponseView {
        AllowanceResponseView { spender: self.spender@, amount: self.amount }
    }
}

/// All allowances: the spenders in ascending order, and beside each, at the
/// same place of `amounts`, the spender's allowance.
#[derive(Clone, Debug, PartialEq, Eq)]
pub struct AllowancesResponse {
    pub spenders: Vec<String>,
    pub amounts: Vec<u128>,
}

/// All allowances as contracts speak of them.
pub struct AllowancesResponseView {
    pub spenders: Seq<Seq<char>>,
    pub amounts: Seq<u128>,
}

impl View for AllowancesResponse {
    type V = AllowancesResponseView;

    open spec fn view(&self) -> AllowancesResponseView {
        AllowancesResponseView { spenders: texts_view(self.spenders@), amounts: self.amounts@ }
    }
}

/// Whether an identity may deposit.
#[derive(Clone, Copy, Debug, PartialEq, Eq)]
pub struct CanDepositResponse {
    pub can_deposit: bool,
}

/// The identities that may deposit, in ascending order.
#[derive(Clone, Debug, PartialEq, Eq)]
pub struct DepositAddressesResponse {
    pub addresses: Vec<String>,
}

/// The answer to a question, by the kind of the question.
#[derive(Clone, Debug, PartialEq, Eq)]
pub enum QueryResponse {
    State(StateResponse),
    Allowance(AllowanceResponse),
    Allowances(AllowancesResponse),
    CanDeposit(CanDepositResponse),
    DepositAddresses(DepositAddressesResponse),
}

/// An answer as contracts speak of it.
pub enum QueryResponseView {
    State(StateResponseView),
    Allowance(AllowanceResponseView),
    Allowances(AllowancesResponseView),
    CanDeposit(bool),
    DepositAddresses(Seq<Seq<char>>),
}

impl View for QueryResponse {
    type V = QueryResponseView;

    open spec fn view(&self) -> QueryResponseView {
        match self {
            QueryResponse::State(response) => QueryResponseView::State(response@),
            QueryResponse::Allowance(response) => QueryResponseView::Allowance(response@),
            QueryResponse::Allowances(response) => QueryResponseView::Allowances(response@),
            QueryResponse::CanDeposit(response) => QueryResponseView::CanDeposit(response.can_deposit),
            QueryResponse::DepositAddresses(response) => QueryResponseView::DepositAddresses(
                texts_view(response.addresses@),
            ),
        }
    }
}

} // verus!
