//! What holds of the vault's operations taken together.

use crate::chain::{AnswersView, CoinView, MessageInfoView};
use crate::ledger::lemma_listing_unique;
use crate::chain::accepted;
use crate::model::{first_of_denom, first_rejected, granted};
use crate::msg::{AllowancesResponseView, ExecuteMsgView};
use crate::state::VaultView;
use vstd::prelude::*;

verus! {

/// Whether the vault accepts a deposit with this sender and these funds: the
/// sender is whitelisted and a coin of the vault's unit is among the funds.
pub open spec fn deposit_accepted(vault: VaultView, info: MessageInfoView) -> bool {
    &&& vault.deposit_addresses.contains_key(info.sender)
    &&& first_of_denom(info.funds, vault.state.expected_denom, 0) is Some
}

/// The amount that a deposit with these funds brings: that of the first coin
/// of the vault's unit, and nothing where there is none.
pub open spec fn deposit_amount(vault: VaultView, info: MessageInfoView) -> nat {
    match first_of_denom(info.funds, vault.state.expected_denom, 0) {
        Some(coin) => coin.amount as nat,
        None => 0,
    }
}

/// The vault after the deposits have been made one after the other.
pub open spec fn after_deposits(vault: VaultView, deposits: Seq<MessageInfoView>) -> VaultView
    decreases deposits.len(),
{
    if deposits.len() == 0 {
        vault
    } else {
        after_deposits(vault, deposits.drop_last()).deposit(deposits.last()).vault
    }
}

/// The sum of the amounts that the deposits bring.
pub open spec fn deposits_sum(vault: VaultView, deposits: Seq<MessageInfoView>) -> nat
    decreases deposits.len(),
{
    if deposits.len() == 0 {
        0
    } else {
        deposits_sum(vault, deposits.drop_last()) + deposit_amount(vault, deposits.last())
    }
}

/// Deposits change neither who may deposit nor the vault's unit, and the
/// total grows by no more than they bring; it grows by exactly that as long as
/// the sum fits in 128 bits.
pub proof fn lemma_deposits_bounded(vault: VaultView, deposits: Seq<MessageInfoView>)
    requires
        forall|i: int| 0 <= i < deposits.len() ==> deposit_accepted(vault, #[trigger] deposits[i]),
    ensures
        after_deposits(vault, deposits).deposit_addresses.dom() == vault.deposit_addresses.dom(),
        after_deposits(vault, deposits).state.expected_denom == vault.state.expected_denom,
        after_deposits(vault, deposits).state.total_amount >= vault.state.total_amount,
        after_deposits(vault, deposits).state.total_amount <= vault.state.total_amount + deposits_sum(
            vault,
            deposits,
        ),
        vault.state.total_amount + deposits_sum(vault, deposits) <= u128::MAX ==> after_deposits(
            vault,
            deposits,
        ).state.total_amount == vault.state.total_amount + deposits_sum(vault, deposits),
    decreases deposits.len(),
{
    if deposits.len() > 0 {
        let earlier = deposits.drop_last();
        assert forall|i: int| 0 <= i < earlier.len() implies deposit_accepted(vault, #[trigger] earlier[i]) by {
            assert(earlier[i] == deposits[i]);
        }
        lemma_deposits_bounded(vault, earlier);
        let before = after_deposits(vault, earlier);
        assert(deposit_accepted(vault, deposits[deposits.len() - 1]));
        assert(before.deposit_addresses.dom().contains(deposits.last().sender));
        assert(before.deposit(deposits.last()).vault.deposit_addresses.dom() =~= before.deposit_addresses.dom());
    }
}

/// After any sequence of deposits, each from a whitelisted identity and with
/// a coin of the vault's unit, the total is what it was plus the sum of the
/// amounts deposited, or the greatest 128-bit number where the sum is beyond
/// it.
///
/// A deposit that would carry the total beyond that number is dropped and
/// leaves the total where it was, below that number. So this holds of the
/// sequences whose sum fits, and of those that end with the total at that
/// number; it does not hold of the others.
pub proof fn lemma_total_is_sum_of_deposits(vault: VaultView, deposits: Seq<MessageInfoView>)
    requires
        forall|i: int| 0 <= i < deposits.len() ==> deposit_accepted(vault, #[trigger] deposits[i]),
        vault.state.total_amount + deposits_sum(vault, deposits) <= u128::MAX || after_deposits(
            vault,
            deposits,
        ).state.total_amount == u128::MAX,
    ensures
        after_deposits(vault, deposits).state.total_amount == (if vault.state.total_amount + deposits_sum(
            vault,
            deposits,
        ) <= u128::MAX {
            vault.state.total_amount + deposits_sum(vault, deposits)
        } else {
            u128::MAX as int
        }),
{
    lemma_deposits_bounded(vault, deposits);
}

/// A deposit from an identity that is not whitelisted, or without a coin of
/// the vault's unit, is refused and changes nothing: not the total, and no
/// counter of the whitelist.
pub proof fn lemma_refused_deposit_changes_nothing(vault: VaultView, info: MessageInfoView)
    requires
        !deposit_accepted(vault, info),
    ensures
        vault.deposit(info).result is Err,
        vault.deposit(info).vault == vault,
{
}

/// A deposit is refused only where the identity is not whitelisted or no coin
/// of the vault's unit came with it.
pub proof fn lemma_accepted_deposit_succeeds(vault: VaultView, info: MessageInfoView)
    requires
        deposit_accepted(vault, info),
    ensures
        vault.deposit(info).result is Ok,
{
}

/// A withdrawal succeeds exactly for the owner, and after it the total is
/// zero, whatever it was.
pub proof fn lemma_withdraw_empties(vault: VaultView, sender: Seq<char>, balance: Seq<CoinView>)
    ensures
        vault.withdraw(sender, balance).result is Ok <==> sender == vault.state.owner,
        vault.withdraw(sender, balance).result is Ok ==> vault.withdraw(
            sender,
            balance,
        ).vault.state.total_amount == 0,
{
}

/// A spender that has an allowance is paid it, and the allowance stays on the
/// ledger as it was, so that the spender can claim it again. The total
/// afterwards is the total before less the allowance, and zero where that
/// would be below zero.
///
/// A total that does not cover the allowance stays as it is. So the last
/// sentence holds where the total covers the allowance and where the total is
/// zero; it does not hold of a total in between.
pub proof fn lemma_retrieve_allowance(vault: VaultView, sender: Seq<char>)
    requires
        vault.allowances.contains_key(sender),
        vault.allowances[sender] <= vault.state.total_amount || vault.state.total_amount == 0,
    ensures
        vault.retrieve_allowance(sender).result is Ok,
        vault.retrieve_allowance(sender).vault.allowances == vault.allowances,
        vault.retrieve_allowance(sender).vault.retrieve_allowance(sender).result is Ok,
        vault.retrieve_allowance(sender).vault.state.total_amount == (if vault.state.total_amount
            - vault.allowances[sender] >= 0 {
            vault.state.total_amount - vault.allowances[sender]
        } else {
            0
        }),
{
}

/// Claiming an allowance changes nothing but the total, and never raises it.
pub proof fn lemma_retrieve_allowance_keeps_ledger(vault: VaultView, sender: Seq<char>)
    ensures
        vault.retrieve_allowance(sender).vault.allowances == vault.allowances,
        vault.retrieve_allowance(sender).vault.deposit_addresses == vault.deposit_addresses,
        vault.retrieve_allowance(sender).vault.state.total_amount <= vault.state.total_amount,
        vault.retrieve_allowance(sender).result is Ok <==> vault.allowances.contains_key(sender),
{
}

/// A list of spenders and a list of amounts that differ in length are
/// refused, and no allowance changes.
pub proof fn lemma_mismatched_list_changes_nothing(
    vault: VaultView,
    sender: Seq<char>,
    spenders: Seq<Seq<char>>,
    valid: Seq<bool>,
    amounts: Seq<u128>,
)
    requires
        spenders.len() != amounts.len(),
    ensures
        vault.add_allowance_list(sender, spenders, valid, amounts).result is Err,
        vault.add_allowance_list(sender, spenders, valid, amounts).vault == vault,
{
}

/// Whether only the owner may ask for the operation: every operation but a
/// deposit and the claim of an allowance.
pub open spec fn owner_only(msg: ExecuteMsgView) -> bool {
    !(msg is Deposit) && !(msg is RetrieveAllowance)
}

/// An operation that only the owner may ask for, asked for by anybody else,
/// is refused with the owner's name, and changes nothing.
pub proof fn lemma_owner_only(vault: VaultView, answers: AnswersView, info: MessageInfoView, msg: ExecuteMsgView)
    requires
        owner_only(msg),
        info.sender != vault.state.owner,
    ensures
        vault.execute(answers, info, msg) == vault.not_owner(),
        vault.execute(answers, info, msg).vault == vault,
{
}

/// An operation that is refused, for whatever reason, changes nothing.
pub proof fn lemma_refusal_changes_nothing(
    vault: VaultView,
    answers: AnswersView,
    info: MessageInfoView,
    msg: ExecuteMsgView,
)
    requires
        vault.execute(answers, info, msg).result is Err,
    ensures
        vault.execute(answers, info, msg).vault == vault,
{
}

/// An identity that was added to the whitelist may deposit, and one that was
/// removed from it may not. Adding and removing succeed exactly where the
/// owner asks and the chain accepts the address.
pub proof fn lemma_whitelist_round_trip(vault: VaultView, sender: Seq<char>, address: Seq<char>, valid: bool)
    ensures
        vault.add_deposit_address(sender, address, valid).result is Ok <==> (sender == vault.state.owner && valid),
        vault.add_deposit_address(sender, address, valid).result is Ok ==> vault.add_deposit_address(
            sender,
            address,
            valid,
        ).vault.can_deposit(address),
        vault.remove_deposit_address(sender, address, valid).result is Ok <==> (sender == vault.state.owner
            && valid),
        vault.remove_deposit_address(sender, address, valid).result is Ok ==> !vault.remove_deposit_address(
            sender,
            address,
            valid,
        ).vault.can_deposit(address),
{
}

/// No operation but one that sets an allowance looks at the allowances when
/// it writes, and none of those that set them looks at the total: the owner
/// can book allowances that the total does not cover.
pub proof fn lemma_allowances_are_not_checked(
    vault: VaultView,
    sender: Seq<char>,
    spender: Seq<char>,
    amount: u128,
)
    requires
        sender == vault.state.owner,
    ensures
        vault.add_allowance(sender, spender, true, amount).result is Ok,
        vault.add_allowance(sender, spender, true, amount).vault.allowances[spender] == amount,
        vault.add_allowance(sender, spender, true, amount).vault.state == vault.state,
{
}

/// The vault's unit is fixed when the vault is set up: no operation changes
/// it.
pub proof fn lemma_unit_is_fixed(vault: VaultView, answers: AnswersView, info: MessageInfoView, msg: ExecuteMsgView)
    ensures
        vault.execute(answers, info, msg).vault.state.expected_denom == vault.state.expected_denom,
{
}

/// Whether the operation edits the allowance ledger.
pub open spec fn edits_allowances(msg: ExecuteMsgView) -> bool {
    msg is AddAllowance || msg is UpdateAllowance || msg is AddAllowanceList || msg is RemoveAllowance
}

/// An operation that edits the allowance ledger touches nothing else: not
/// the vault's record, the total in it included, and not the whitelist. All
/// others leave the allowance ledger as it is.
pub proof fn lemma_allowance_edits_stay_apart(
    vault: VaultView,
    answers: AnswersView,
    info: MessageInfoView,
    msg: ExecuteMsgView,
)
    ensures
        edits_allowances(msg) ==> vault.execute(answers, info, msg).vault.state == vault.state,
        edits_allowances(msg) ==> vault.execute(answers, info, msg).vault.deposit_addresses
            == vault.deposit_addresses,
        !edits_allowances(msg) ==> vault.execute(answers, info, msg).vault.allowances == vault.allowances,
{
}

/// Adding an allowance and updating one do the same to the vault, and
/// succeed and fail together.
pub proof fn lemma_add_and_update_allowance_agree(
    vault: VaultView,
    sender: Seq<char>,
    spender: Seq<char>,
    valid: bool,
    amount: u128,
)
    ensures
        vault.add_allowance(sender, spender, valid, amount).vault == vault.update_allowance(
            sender,
            spender,
            valid,
            amount,
        ).vault,
        vault.add_allowance(sender, spender, valid, amount).result is Ok <==> vault.update_allowance(
            sender,
            spender,
            valid,
            amount,
        ).result is Ok,
        vault.add_allowance(sender, spender, valid, amount).result is Err ==> vault.add_allowance(
            sender,
            spender,
            valid,
            amount,
        ).result == vault.update_allowance(sender, spender, valid, amount).result,
{
}

/// A list of allowances leaves the allowance of everybody who is not on the
/// list as it was, and gives everybody on the list an allowance.
pub proof fn lemma_granted_reaches_the_list_only(
    allowances: Map<Seq<char>, u128>,
    spenders: Seq<Seq<char>>,
    amounts: Seq<u128>,
    from: int,
    who: Seq<char>,
)
    requires
        0 <= from <= spenders.len(),
        spenders.len() == amounts.len(),
    ensures
        (forall|i: int| from <= i < spenders.len() ==> spenders[i] != who) ==> {
            &&& granted(allowances, spenders, amounts, from).contains_key(who) == allowances.contains_key(who)
            &&& granted(allowances, spenders, amounts, from)[who] == allowances[who]
        },
        (exists|i: int| from <= i < spenders.len() && spenders[i] == who) ==> granted(
            allowances,
            spenders,
            amounts,
            from,
        ).contains_key(who),
    decreases spenders.len() - from,
{
    if from < spenders.len() {
        let next = allowances.insert(spenders[from], amounts[from]);
        lemma_granted_reaches_the_list_only(next, spenders, amounts, from + 1, who);
        if exists|i: int| from <= i < spenders.len() && spenders[i] == who {
            let i = choose|i: int| from <= i < spenders.len() && spenders[i] == who;
            if i == from {
                if forall|j: int| from + 1 <= j < spenders.len() ==> spenders[j] != who {
                    assert(next.contains_key(who));
                }
            }
        }
    }
}

/// The first address that was not accepted depends on the answers for the
/// places that are looked at, and on no others.
proof fn lemma_first_rejected_reads_its_places(a: Seq<bool>, b: Seq<bool>, from: int, count: int)
    requires
        0 <= from,
        forall|i: int| from <= i < count ==> accepted(a, i) == accepted(b, i),
    ensures
        first_rejected(a, from, count) == first_rejected(b, from, count),
    decreases count - from,
{
    if from < count {
        lemma_first_rejected_reads_its_places(a, b, from + 1, count);
    }
}

/// An operation reads of the chain's answers what it asked for, and nothing
/// else: the answers about the addresses that the message gives, and the
/// balance where the message is a withdrawal.
pub proof fn lemma_execute_reads_what_it_asked(
    vault: VaultView,
    a: AnswersView,
    b: AnswersView,
    info: MessageInfoView,
    msg: ExecuteMsgView,
)
    requires
        forall|i: int| 0 <= i < msg.addresses().len() ==> accepted(a.valid, i) == accepted(b.valid, i),
        msg is Withdraw ==> a.balance == b.balance,
    ensures
        vault.execute(a, info, msg) == vault.execute(b, info, msg),
{
    match msg {
        ExecuteMsgView::AddAllowanceList { spenders, amounts } => {
            lemma_first_rejected_reads_its_places(a.valid, b.valid, 0, spenders.len() as int);
        },
        ExecuteMsgView::Deposit {  } => {},
        ExecuteMsgView::Withdraw {  } => {},
        ExecuteMsgView::RetrieveAllowance {  } => {},
        ExecuteMsgView::UpdateName { name } => {},
        _ => {
            assert(msg.addresses().len() == 1);
            assert(accepted(a.valid, 0) == accepted(b.valid, 0));
        },
    }
}

/// All allowances are reported in one way only.
pub proof fn lemma_allowances_report_unique(vault: VaultView, a: AllowancesResponseView, b: AllowancesResponseView)
    requires
        vault.reports_allowances(a),
        vault.reports_allowances(b),
    ensures
        a == b,
{
    lemma_listing_unique(a.spenders, b.spenders, vault.allowances.dom());
    assert forall|i: int| 0 <= i < a.amounts.len() implies a.amounts[i] == b.amounts[i] by {
        assert(a.amounts[i] == vault.allowances[a.spenders[i]]);
        assert(b.amounts[i] == vault.allowances[b.spenders[i]]);
    }
    assert(a.amounts =~= b.amounts);
}

/// The identities that may deposit are listed in one way only.
pub proof fn lemma_deposit_addresses_report_unique(vault: VaultView, a: Seq<Seq<char>>, b: Seq<Seq<char>>)
    requires
        vault.reports_deposit_addresses(a),
        vault.reports_deposit_addresses(b),
    ensures
        a == b,
{
    lemma_listing_unique(a, b, vault.deposit_addresses.dom());
}

} // verus!
