//! What a command is told about its invocation, and what it answers.

use crate::registry::{MarkerMsg, MarkerMsgView};
use crate::storage::state_store::{Bid, BidView, Buyer, BuyerView, Config, ConfigView, Seller, SellerView};
use vstd::prelude::*;

verus! {

/// The block in which a command runs.
#[derive(Clone, Debug, PartialEq, Eq)]
pub struct BlockInfo {
    pub height: u64,
}

/// The contract instance that runs a command.
#[derive(Clone, Debug, PartialEq, Eq)]
pub struct ContractInfo {
    pub address: String,
}

/// The circumstances of an invocation.
#[derive(Debug, PartialEq, Eq)]
pub struct Env {
    pub block: BlockInfo,
    pub contract: ContractInfo,
}

impl Clone for Env {
    fn clone(&self) -> (r: Self)
        ensures
            r.block.height == self.block.height,
            r.contract.address@ == self.contract.address@,
    {
        Env {
            block: BlockInfo { height: self.block.height },
            contract: ContractInfo { address: self.contract.address.clone() },
        }
    }
}

/// The caller of a command.
#[derive(Debug, PartialEq, Eq)]
pub struct MessageInfo {
    pub sender: String,
}

impl Clone for MessageInfo {
    fn clone(&self) -> (r: Self)
        ensures
            r.sender@ == self.sender@,
    {
        MessageInfo { sender: self.sender.clone() }
    }
}

/// One observable fact that a successful command reports.
#[derive(Clone, Debug, PartialEq, Eq)]
pub enum Attribute {
    /// The seller record as the command left it.
    SellerState(Seller),
    /// The bound buyer as the command left it.
    Buyer(Buyer),
    /// The bids as the command left them.
    BidList(Vec<Bid>),
    /// The configuration as the command left it.
    ContractConfig(Config),
    /// A free-form fact under a key.
    Text { key: String, value: String },
}

/// The mathematical content of a [`Attribute`].
pub enum AttributeView {
    SellerState(SellerView),
    Buyer(BuyerView),
    BidList(Seq<BidView>),
    ContractConfig(ConfigView),
    Text { key: Seq<char>, value: Seq<char> },
}

impl View for Attribute {
    type V = AttributeView;

    open spec fn view(&self) -> AttributeView {
        match self {
            Attribute::SellerState(seller) => AttributeView::SellerState(seller@),
            Attribute::Buyer(buyer) => AttributeView::Buyer(buyer@),
            Attribute::BidList(bids) => AttributeView::BidList(bids.deep_view()),
            Attribute::ContractConfig(config) => AttributeView::ContractConfig(config@),
            Attribute::Text { key, value } => AttributeView::Text { key: key@, value: value@ },
        }
    }
}

impl DeepView for Attribute {
    type V = AttributeView;

    open spec fn deep_view(&self) -> AttributeView {
        self@
    }
}

impl Attribute {
    /// The key under which the fact is reported.
    pub open spec fn key_of(a: AttributeView) -> Seq<char> {
        match a {
            AttributeView::SellerState(_) => "seller_state"@,
            AttributeView::Buyer(_) => "buyer"@,
            AttributeView::BidList(_) => "bid_list"@,
            AttributeView::ContractConfig(_) => "contract_config"@,
            AttributeView::Text { key, value } => key,
        }
    }

    /// The key under which the fact is reported.
    pub fn key(&self) -> (r: String)
        ensures
            r@ == Attribute::key_of(self@),
    {
        match self {
            Attribute::SellerState(_) => "seller_state".to_owned(),
            Attribute::Buyer(_) => "buyer".to_owned(),
            Attribute::BidList(_) => "bid_list".to_owned(),
            Attribute::ContractConfig(_) => "contract_config".to_owned(),
            Attribute::Text { key, value } => key.clone(),
        }
    }
}

/// The answer of a successful command: the instructions that it queues for the
/// asset registry, in order, and the facts that it reports.
#[derive(Clone, Debug, PartialEq, Eq)]
pub struct Response {
    pub messages: Vec<MarkerMsg>,
    pub attributes: Vec<Attribute>,
}

/// The mathematical content of a [`Response`].
pub struct ResponseView {
    pub messages: Seq<MarkerMsgView>,
    pub attributes: Seq<AttributeView>,
}

impl View for Response {
    type V = ResponseView;

    open spec fn view(&self) -> ResponseView {
        ResponseView {
            messages: self.messages.deep_view(),
            attributes: self.attributes.deep_view(),
        }
    }
}

impl DeepView for Response {
    type V = ResponseView;

    open spec fn deep_view(&self) -> ResponseView {
        self@
    }
}

impl ResponseView {
    /// The answer that queues `messages` and reports the one fact `attribute`.
    pub open spec fn reporting(messages: Seq<MarkerMsgView>, attribute: AttributeView) -> Self {
        ResponseView { messages, attributes: seq![attribute] }
    }
}

impl Response {
    /// An answer that queues nothing and reports nothing.
    pub fn new() -> (r: Response)
        ensures
            r@.messages.len() == 0,
            r@.attributes.len() == 0,
    {
        Response { messages: Vec::new(), attributes: Vec::new() }
    }

    /// The answer with one more reported fact.
    pub fn add_attribute(self, attribute: Attribute) -> (r: Response)
        ensures
            r@.messages == self@.messages,
            r@.attributes == self@.attributes.push(attribute@),
    {
        let mut attributes = self.attributes;
        let ghost before = attributes.deep_view();
        attributes.push(attribute);
        assert(attributes.deep_view() =~= before.push(attribute@));
        Response { messages: self.messages, attributes }
    }

    /// The answer with one more queued instruction.
    pub fn add_message(self, message: MarkerMsg) -> (r: Response)
        ensures
            r@.messages == self@.messages.push(message@),
            r@.attributes == self@.attributes,
    {
        let mut messages = self.messages;
        let ghost before = messages.deep_view();
        messages.push(message);
        assert(messages.deep_view() =~= before.push(message@));
        Response { messages, attributes: self.attributes }
    }

    /// The answer with more queued instructions, in the order given.
    pub fn add_messages(self, more: Vec<MarkerMsg>) -> (r: Response)
        ensures
            r@.messages == self@.messages + more.deep_view(),
            r@.attributes == self@.attributes,
    {
        let mut messages = self.messages;
        let mut more = more;
        let ghost before = messages.deep_view();
        let ghost added = more.deep_view();
        messages.append(&mut more);
        assert(messages.deep_view() =~= before + added);
        Response { messages, attributes: self.attributes }
    }
}

} // verus!
