//! What each operation does, stated on the vault as contracts speak of it.
//!
//! Each operation is a function from the vault before, the caller and the
//! operation's arguments to an outcome: the vault after, and the response or
//! the refusal. The executable operations are proved to compute these
//! outcomes.

use crate::amount::{credited, debited, decimal};
use crate::chain::{accepted, AnswersView, BankMsgView, CoinView, MessageInfoView, Response, ResponseView};
use crate::error::{ContractError, ContractErrorView, StdError, StdErrorView};
use crate::ledger::lists;
use crate::msg::{
    AllowanceResponseView, AllowancesResponseView, ExecuteMsgView, QueryMsgView, QueryResponse, QueryResponseView,
    StateResponseView,
};
use crate::state::{StateView, VaultView};
use vstd::prelude::*;

verus! {

/// How an operation ends.
#[verifier::ext_equal]
pub struct Outcome {
    /// The vault after the operation.
    pub vault: VaultView,
    /// What the operation hands back.
    pub result: Result<ResponseView, ContractErrorView>,
}

/// What an executable operation handed back, as contracts speak of it.
pub open spec fn result_view(result: Result<Response, ContractError>) -> Result<
    ResponseView,
    ContractErrorView,
> {
    match result {
        Ok(response) => Ok(response@),
        Err(error) => Err(error@),
    }
}

/// What a question was answered, as contracts speak of it.
pub open spec fn answer_view(result: Result<QueryResponse, StdError>) -> Result<QueryResponseView, StdErrorView> {
    match result {
        Ok(response) => Ok(response@),
        Err(error) => Err(error@),
    }
}

/// The first coin of `denom` among `funds` from place `from` on, if there is
/// one.
pub open spec fn first_of_denom(funds: Seq<CoinView>, denom: Seq<char>, from: int) -> Option<CoinView>
    decreases funds.len() - from,
{
    if from < 0 || from >= funds.len() {
        None
    } else if funds[from].denom == denom {
        Some(funds[from])
    } else {
        first_of_denom(funds, denom, from + 1)
    }
}

/// The first place from `from` on and below `count` whose address the chain
/// did not accept, if there is one.
pub open spec fn first_rejected(valid: Seq<bool>, from: int, count: int) -> Option<int>
    decreases count - from,
{
    if from < 0 || from >= count {
        None
    } else if !accepted(valid, from) {
        Some(from)
    } else {
        first_rejected(valid, from + 1, count)
    }
}

/// The allowances after each spender from place `from` on has been given the
/// amount at its place, one after the other. `spenders` and `amounts` have the
/// same length.
pub open spec fn granted(
    allowances: Map<Seq<char>, u128>,
    spenders: Seq<Seq<char>>,
    amounts: Seq<u128>,
    from: int,
) -> Map<Seq<char>, u128>
    decreases spenders.len() - from,
{
    if from < 0 || from >= spenders.len() {
        allowances
    } else {
        granted(allowances.insert(spenders[from], amounts[from]), spenders, amounts, from + 1)
    }
}

impl VaultView {
    /// The vault as it is set up: `owner` owns it and may deposit, nothing is
    /// held, nobody has an allowance.
    pub open spec fn instantiated(owner: Seq<char>, name: Seq<char>, expected_denom: Seq<char>) -> VaultView {
        VaultView {
            state: StateView { owner, name, total_amount: 0, expected_denom },
            deposit_addresses: Map::empty().insert(owner, 0u128),
            allowances: Map::empty(),
        }
    }

    /// The operation is refused and the vault stays as it is.
    pub open spec fn refused(self, error: ContractErrorView) -> Outcome {
        Outcome { vault: self, result: Err(error) }
    }

    /// The refusal that a caller other than the owner meets.
    pub open spec fn not_owner(self) -> Outcome {
        self.refused(ContractErrorView::NotOwner { owner: self.state.owner })
    }

    /// A deposit: the first coin of the vault's unit among the funds is
    /// credited to the sender's counter and to the total, each of which stays
    /// as it is where the sum would overflow. Refused where no coin is of the
    /// vault's unit, and then where the sender is not whitelisted.
    pub open spec fn deposit(self, info: MessageInfoView) -> Outcome {
        match first_of_denom(info.funds, self.state.expected_denom, 0) {
            None => self.refused(ContractErrorView::InvalidDenom { denom: self.state.expected_denom }),
            Some(coin) => if !self.deposit_addresses.contains_key(info.sender) {
                self.refused(ContractErrorView::UnauthorizedDepositAddress { address: info.sender })
            } else {
                Outcome {
                    vault: VaultView {
                        state: StateView {
                            total_amount: credited(self.state.total_amount, coin.amount),
                            ..self.state
                        },
                        deposit_addresses: self.deposit_addresses.insert(
                            info.sender,
                            credited(self.deposit_addresses[info.sender], coin.amount),
                        ),
                        ..self
                    },
                    result: Ok(
                        ResponseView::new().add_attribute("action"@, "deposit"@).add_attribute(
                            "address"@,
                            info.sender,
                        ).add_attribute("amount"@, decimal(coin.amount as nat)),
                    ),
                }
            },
        }
    }

    /// The owner puts `address` on the whitelist, with a counter of zero
    /// whether or not it was there before.
    pub open spec fn add_deposit_address(self, sender: Seq<char>, address: Seq<char>, valid: bool) -> Outcome {
        if sender != self.state.owner {
            self.not_owner()
        } else if !valid {
            self.refused(ContractErrorView::NotValidAddress { address })
        } else {
            Outcome {
                vault: VaultView { deposit_addresses: self.deposit_addresses.insert(address, 0u128), ..self },
                result: Ok(
                    ResponseView::new().add_attribute("action"@, "add_deposit_address"@).add_attribute(
                        "address"@,
                        address,
                    ),
                ),
            }
        }
    }

    /// The owner takes `address` off the whitelist, whether or not it was
    /// there.
    pub open spec fn remove_deposit_address(self, sender: Seq<char>, address: Seq<char>, valid: bool) -> Outcome {
        if sender != self.state.owner {
            self.not_owner()
        } else if !valid {
            self.refused(ContractErrorView::NotValidAddress { address })
        } else {
            Outcome {
                vault: VaultView { deposit_addresses: self.deposit_addresses.remove(address), ..self },
                result: Ok(
                    ResponseView::new().add_attribute("action"@, "remove_deposit_address"@).add_attribute(
                        "address"@,
                        address,
                    ),
                ),
            }
        }
    }

    /// The owner sweeps the vault: all of `balance`, which is what the
    /// vault's account holds, is sent to the owner, and the total is zero
    /// afterwards. Allowances are not looked at.
    pub open spec fn withdraw(self, sender: Seq<char>, balance: Seq<CoinView>) -> Outcome {
        if sender != self.state.owner {
            self.not_owner()
        } else {
            Outcome {
                vault: VaultView { state: StateView { total_amount: 0, ..self.state }, ..self },
                result: Ok(
                    ResponseView::new().add_message(
                        BankMsgView::Send { to_address: sender, amount: balance },
                    ).add_attribute("action"@, "withdraw"@),
                ),
            }
        }
    }

    /// The owner sets the allowance of `spender` to `amount`, whether or not
    /// the spender had one. `action` is the name under which the response
    /// reports it. The total is not looked at.
    pub open spec fn set_allowance(
        self,
        action: Seq<char>,
        sender: Seq<char>,
        spender: Seq<char>,
        valid: bool,
        amount: u128,
    ) -> Outcome {
        if sender != self.state.owner {
            self.not_owner()
        } else if !valid {
            self.refused(ContractErrorView::NotValidAddress { address: spender })
        } else {
            Outcome {
                vault: VaultView { allowances: self.allowances.insert(spender, amount), ..self },
                result: Ok(
                    ResponseView::new().add_attribute("action"@, action).add_attribute(
                        "spender"@,
                        spender,
                    ).add_attribute("amount"@, decimal(amount as nat)),
                ),
            }
        }
    }

    /// The owner gives `spender` the allowance `amount`.
    pub open spec fn add_allowance(self, sender: Seq<char>, spender: Seq<char>, valid: bool, amount: u128) -> Outcome {
        self.set_allowance("add_allowance"@, sender, spender, valid, amount)
    }

    /// The owner changes the allowance of `spender` to `amount`. It differs
    /// from `add_allowance` in the name that the response reports.
    pub open spec fn update_allowance(
        self,
        sender: Seq<char>,
        spender: Seq<char>,
        valid: bool,
        amount: u128,
    ) -> Outcome {
        self.set_allowance("update_allowance"@, sender, spender, valid, amount)
    }

    /// The owner gives each of `spenders` the amount at its place of
    /// `amounts`, in their order. Refused where the two differ in length, and
    /// then where the chain did not accept one of the spenders: the first such
    /// spender is reported.
    pub open spec fn add_allowance_list(
        self,
        sender: Seq<char>,
        spenders: Seq<Seq<char>>,
        valid: Seq<bool>,
        amounts: Seq<u128>,
    ) -> Outcome {
        if sender != self.state.owner {
            self.not_owner()
        } else if spenders.len() != amounts.len() {
            self.refused(ContractErrorView::AllowanceAddressesAmountsNotEqual {  })
        } else {
            match first_rejected(valid, 0, spenders.len() as int) {
                Some(i) => self.refused(ContractErrorView::NotValidAddress { address: spenders[i] }),
                None => Outcome {
                    vault: VaultView { allowances: granted(self.allowances, spenders, amounts, 0), ..self },
                    result: Ok(ResponseView::new().add_attribute("action"@, "add_allowance_list"@)),
                },
            }
        }
    }

    /// The owner strikes the allowance of `spender`, whether or not there was
    /// one.
    pub open spec fn remove_allowance(self, sender: Seq<char>, spender: Seq<char>, valid: bool) -> Outcome {
        if sender != self.state.owner {
            self.not_owner()
        } else if !valid {
            self.refused(ContractErrorView::NotValidAddress { address: spender })
        } else {
            Outcome {
                vault: VaultView { allowances: self.allowances.remove(spender), ..self },
                result: Ok(
                    ResponseView::new().add_attribute("action"@, "remove_allowance"@).add_attribute(
                        "spender"@,
                        spender,
                    ),
                ),
            }
        }
    }

    /// A spender claims its allowance: the whole allowance, in the vault's
    /// unit, is sent to the spender, and it is taken from the total, which
    /// stays as it is where it does not cover the allowance. The allowance
    /// itself stays on the ledger.
    pub open spec fn retrieve_allowance(self, sender: Seq<char>) -> Outcome {
        if !self.allowances.contains_key(sender) {
            self.refused(ContractErrorView::NoAllowance { address: sender })
        } else {
            let allowance = self.allowances[sender];
            Outcome {
                vault: VaultView {
                    state: StateView {
                        total_amount: debited(self.state.total_amount, allowance),
                        ..self.state
                    },
                    ..self
                },
                result: Ok(
                    ResponseView::new().add_message(
                        BankMsgView::Send {
                            to_address: sender,
                            amount: seq![CoinView { denom: self.state.expected_denom, amount: allowance }],
                        },
                    ).add_attribute("action"@, "retrieve_allowance"@).add_attribute(
                        "address"@,
                        sender,
                    ).add_attribute("amount"@, decimal(allowance as nat)),
                ),
            }
        }
    }

    /// The owner gives the vault another label.
    pub open spec fn update_name(self, sender: Seq<char>, name: Seq<char>) -> Outcome {
        if sender != self.state.owner {
            self.not_owner()
        } else {
            Outcome {
                vault: VaultView { state: StateView { name, ..self.state }, ..self },
                result: Ok(ResponseView::new().add_attribute("action"@, "update_name"@)),
            }
        }
    }

    /// The owner hands the vault over to `owner`.
    pub open spec fn update_owner(self, sender: Seq<char>, owner: Seq<char>, valid: bool) -> Outcome {
        if sender != self.state.owner {
            self.not_owner()
        } else if !valid {
            self.refused(ContractErrorView::NotValidAddress { address: owner })
        } else {
            Outcome {
                vault: VaultView { state: StateView { owner, ..self.state }, ..self },
                result: Ok(
                    ResponseView::new().add_attribute("action"@, "update_owner"@).add_attribute("owner"@, owner),
                ),
            }
        }
    }

    /// The operation that `msg` asks for, on behalf of the sender of `info`
    /// and with what the chain answered.
    pub open spec fn execute(self, answers: AnswersView, info: MessageInfoView, msg: ExecuteMsgView) -> Outcome {
        match msg {
            ExecuteMsgView::Deposit {  } => self.deposit(info),
            ExecuteMsgView::AddDepositAddress { address } => self.add_deposit_address(
                info.sender,
                address,
                accepted(answers.valid, 0),
            ),
            ExecuteMsgView::RemoveDepositAddress { address } => self.remove_deposit_address(
                info.sender,
                address,
                accepted(answers.valid, 0),
            ),
            ExecuteMsgView::Withdraw {  } => self.withdraw(info.sender, answers.balance),
            ExecuteMsgView::AddAllowance { spender, amount } => self.add_allowance(
                info.sender,
                spender,
                accepted(answers.valid, 0),
                amount,
            ),
            ExecuteMsgView::AddAllowanceList { spenders, amounts } => self.add_allowance_list(
                info.sender,
                spenders,
                answers.valid,
                amounts,
            ),
            ExecuteMsgView::RemoveAllowance { spender } => self.remove_allowance(
                info.sender,
                spender,
                accepted(answers.valid, 0),
            ),
            ExecuteMsgView::UpdateAllowance { spender, amount } => self.update_allowance(
                info.sender,
                spender,
                accepted(answers.valid, 0),
                amount,
            ),
            ExecuteMsgView::RetrieveAllowance {  } => self.retrieve_allowance(info.sender),
            ExecuteMsgView::UpdateName { name } => self.update_name(info.sender, name),
            ExecuteMsgView::UpdateOwner { owner } => self.update_owner(
                info.sender,
                owner,
                accepted(answers.valid, 0),
            ),
        }
    }

    /// The vault's record as a query reports it.
    pub open spec fn state_response(self) -> StateResponseView {
        StateResponseView {
            owner: self.state.owner,
            name: self.state.name,
            total_amount: self.state.total_amount,
            expected_denom: self.state.expected_denom,
        }
    }

    /// The allowance of `spender` as a query reports it, or that none was
    /// found.
    pub open spec fn allowance_response(self, spender: Seq<char>) -> Result<AllowanceResponseView, StdErrorView> {
        if self.allowances.contains_key(spender) {
            Ok(AllowanceResponseView { spender, amount: self.allowances[spender] })
        } else {
            Err(StdErrorView::NotFound { kind: "allowance"@ })
        }
    }

    /// Whether `response` reports all allowances: the spenders in ascending
    /// order, and each one's allowance at the spender's place. One response
    /// only does.
    pub open spec fn reports_allowances(self, response: AllowancesResponseView) -> bool {
        &&& lists(response.spenders, self.allowances.dom())
        &&& response.amounts.len() == response.spenders.len()
        &&& forall|i: int|
            0 <= i < response.spenders.len() ==> response.amounts[i] == self.allowances[#[trigger] response.spenders[i]]
    }

    /// Whether `address` may deposit.
    pub open spec fn can_deposit(self, address: Seq<char>) -> bool {
        self.deposit_addresses.contains_key(address)
    }

    /// Whether `addresses` lists the identities that may deposit, in ascending
    /// order. One list only does.
    pub open spec fn reports_deposit_addresses(self, addresses: Seq<Seq<char>>) -> bool {
        lists(addresses, self.deposit_addresses.dom())
    }

    /// Whether `result` is the answer to the question `msg`.
    pub open spec fn answers(self, msg: QueryMsgView, result: Result<QueryResponseView, StdErrorView>) -> bool {
        match msg {
            QueryMsgView::GetState {  } => result == Ok::<QueryResponseView, StdErrorView>(
                QueryResponseView::State(self.state_response()),
            ),
            QueryMsgView::GetAllowance { spender } => match self.allowance_response(spender) {
                Ok(response) => result == Ok::<QueryResponseView, StdErrorView>(
                    QueryResponseView::Allowance(response),
                ),
                Err(error) => result == Err::<QueryResponseView, StdErrorView>(error),
            },
            QueryMsgView::GetAllowances {  } => result matches Ok(QueryResponseView::Allowances(response))
                && self.reports_allowances(response),
            QueryMsgView::CanDeposit { address } => result == Ok::<QueryResponseView, StdErrorView>(
                QueryResponseView::CanDeposit(self.can_deposit(address)),
            ),
            QueryMsgView::GetDepositAddresses {  } => result matches Ok(
                QueryResponseView::DepositAddresses(addresses),
            ) && self.reports_deposit_addresses(addresses),
        }
    }
}

} // verus!
