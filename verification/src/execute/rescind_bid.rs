use crate::error::{ContractError, ContractErrorView};
use crate::execute::add_bidder::{bids_without, other_bids};
use crate::response::{Attribute, AttributeView, MessageInfo, Response, ResponseView};
use crate::storage::state_store::{
    clone_bids, missing, missing_row, BidList, BidListView, Store, StoreView,
};
use crate::util::helpers::Step;
use vstd::prelude::*;

verus! {

/// A bidder withdraws its bid. The bound buyer cannot: its bid was accepted.
/// A caller without a bid has nothing to withdraw.
pub open spec fn rescind_bid_step(pre: StoreView, sender: Seq<char>) -> Step {
    if pre.is_buyer(sender) {
        Step::fail(pre, ContractErrorView::IllegalBidRescind)
    } else if pre.bid_list is None {
        Step::fail(pre, missing_row("buyer_list"@))
    } else {
        let bids = pre.bid_list->0.bids;
        let updated = other_bids(bids, sender);
        if updated.len() == bids.len() {
            Step::fail(pre, ContractErrorView::InvalidBidRescind)
        } else {
            Step::done(
                StoreView { bid_list: Some(BidListView { bids: updated }), ..pre },
                ResponseView::reporting(seq![], AttributeView::BidList(updated)),
            )
        }
    }
}

/// Runs the withdrawal of a bid; see [`rescind_bid_step`].
pub fn execute_rescind_bid(store: &mut Store, info: MessageInfo) -> (r: Result<
    Response,
    ContractError,
>)
    ensures
        rescind_bid_step(old(store)@, info.sender@).describes(final(store)@, r),
{
    match &store.buyer {
        None => {},
        Some(buyer) => {
            if buyer.buyer_address == info.sender {
                return Err(ContractError::IllegalBidRescind);
            }
        },
    }
    let bid_list = match &store.bid_list {
        None => {
            return Err(missing("buyer_list"));
        },
        Some(list) => list,
    };
    let bid_count = bid_list.bids.len();
    let updated_bid_list = bids_without(&bid_list.bids, &info.sender);
    if updated_bid_list.len() == bid_count {
        return Err(ContractError::InvalidBidRescind);
    }
    let reported = clone_bids(&updated_bid_list);
    store.bid_list = Some(BidList { bids: updated_bid_list });
    let response = Response::new().add_attribute(Attribute::BidList(reported));
    proof {
        let step = rescind_bid_step(old(store)@, info.sender@);
        assert(response@.messages =~= step.result->Ok_0.messages);
        assert(response@.attributes =~= step.result->Ok_0.attributes);
    }
    Ok(response)
}

} // verus!
