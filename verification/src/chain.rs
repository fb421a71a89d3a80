//! The values that pass between the vault and the chain that runs it: who
//! calls and with what funds, what the chain answered when it was asked, and
//! what the vault asks the chain to carry out.

use vstd::prelude::*;

verus! {

/// An amount of one unit of value.
#[derive(Clone, Debug, PartialEq, Eq)]
pub struct Coin {
    pub denom: String,
    pub amount: u128,
}

/// A coin as contracts speak of it.
pub struct CoinView {
    pub denom: Seq<char>,
    pub amount: u128,
}

impl View for Coin {
    type V = CoinView;

    open spec fn view(&self) -> CoinView {
        CoinView { denom: self.denom@, amount: self.amount }
    }
}

/// The coins as contracts speak of them, in the same order.
pub open spec fn coins_view(coins: Seq<Coin>) -> Seq<CoinView> {
    coins.map_values(|coin: Coin| coin@)
}

/// The texts as contracts speak of them, in the same order.
pub open spec fn texts_view(texts: Seq<String>) -> Seq<Seq<char>> {
    texts.map_values(|text: String| text@)
}

/// Who sent a message, and the funds that came with it.
#[derive(Clone, Debug, PartialEq, Eq)]
pub struct MessageInfo {
    pub sender: String,
    pub funds: Vec<Coin>,
}

/// A message's sender and funds as contracts speak of them.
pub struct MessageInfoView {
    pub sender: Seq<char>,
    pub funds: Seq<CoinView>,
}

impl View for MessageInfo {
    type V = MessageInfoView;

    open spec fn view(&self) -> MessageInfoView {
        MessageInfoView { sender: self.sender@, funds: coins_view(self.funds@) }
    }
}

/// What the chain answered when it was asked about one message, before the
/// vault handles it.
///
/// `valid` holds, for each text that the message gives as an address and in the
/// order in which the message lists them, whether the chain accepts the text as
/// a well-formed address. A text that has no answer counts as not accepted.
/// `balance` is all that the vault's own account holds; only a withdrawal reads
/// it.
#[derive(Clone, Debug, PartialEq, Eq)]
pub struct Answers {
    pub valid: Vec<bool>,
    pub balance: Vec<Coin>,
}

/// The chain's answers as contracts speak of them.
pub struct AnswersView {
    pub valid: Seq<bool>,
    pub balance: Seq<CoinView>,
}

impl View for Answers {
    type V = AnswersView;

    open spec fn view(&self) -> AnswersView {
        AnswersView { valid: self.valid@, balance: coins_view(self.balance@) }
    }
}

/// Whether the answers accept the address at place `i` of a message.
pub open spec fn accepted(valid: Seq<bool>, i: int) -> bool {
    0 <= i < valid.len() && valid[i]
}

/// A key and a value that a response carries for those who watch the chain.
#[derive(Clone, Debug, PartialEq, Eq)]
pub struct Attribute {
    pub key: String,
    pub value: String,
}

/// An attribute as contracts speak of it.
pub struct AttributeView {
    pub key: Seq<char>,
    pub value: Seq<char>,
}

impl View for Attribute {
    type V = AttributeView;

    open spec fn view(&self) -> AttributeView {
        AttributeView { key: self.key@, value: self.value@ }
    }
}

/// An instruction to the chain to move value out of the vault's account. The
/// vault only issues it; the chain carries it out.
#[derive(Clone, Debug, PartialEq, Eq)]
pub enum BankMsg {
    Send { to_address: String, amount: Vec<Coin> },
}

/// A transfer instruction as contracts speak of it.
pub enum BankMsgView {
    Send { to_address: Seq<char>, amount: Seq<CoinView> },
}

impl View for BankMsg {
    type V = BankMsgView;

    open spec fn view(&self) -> BankMsgView {
        match self {
            BankMsg::Send { to_address, amount } => BankMsgView::Send {
                to_address: to_address@,
                amount: coins_view(amount@),
            },
        }
    }
}

/// What an operation that succeeded hands back: the transfer instructions for
/// the chain, and the attributes that describe what was done.
#[derive(Clone, Debug, PartialEq, Eq)]
pub struct Response {
    pub messages: Vec<BankMsg>,
    pub attributes: Vec<Attribute>,
}

/// A response as contracts speak of it.
#[verifier::ext_equal]
pub struct ResponseView {
    pub messages: Seq<BankMsgView>,
    pub attributes: Seq<AttributeView>,
}

impl View for Response {
    type V = ResponseView;

    open spec fn view(&self) -> ResponseView {
        ResponseView {
            messages: self.messages@.map_values(|message: BankMsg| message@),
            attributes: self.attributes@.map_values(|attribute: Attribute| attribute@),
        }
    }
}

impl ResponseView {
    /// The response with nothing in it.
    pub open spec fn new() -> ResponseView {
        ResponseView { messages: Seq::empty(), attributes: Seq::empty() }
    }

    /// This response with one more attribute at the end.
    pub open spec fn add_attribute(self, key: Seq<char>, value: Seq<char>) -> ResponseView {
        ResponseView { attributes: self.attributes.push(AttributeView { key, value }), ..self }
    }

    /// This response with one more transfer instruction at the end.
    pub open spec fn add_message(self, message: BankMsgView) -> ResponseView {
        ResponseView { messages: self.messages.push(message), ..self }
    }
}

impl Response {
    /// A response with nothing in it.
    pub fn new() -> (response: Response)
        ensures
            response@ == ResponseView::new(),
    {
        let response = Response { messages: Vec::new(), attributes: Vec::new() };
        assert(response@ =~= ResponseView::new());
        response
    }

    /// Adds an attribute at the end.
    pub fn add_attribute(self, key: &str, value: String) -> (response: Response)
        ensures
            response@ == self@.add_attribute(key@, value@),
    {
        let mut response = self;
        response.attributes.push(Attribute { key: key.to_owned(), value });
        assert(response@ =~= self@.add_attribute(key@, value@));
        response
    }

    /// Adds a transfer instruction at the end.
    pub fn add_message(self, message: BankMsg) -> (response: Response)
        ensures
            response@ == self@.add_message(message@),
    {
        let mut response = self;
        response.messages.push(message);
        assert(response@ =~= self@.add_message(message@));
        response
    }
}

} // verus!
