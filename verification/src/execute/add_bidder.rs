use crate::error::{ContractError, ContractErrorView};
use crate::response::{Attribute, AttributeView, MessageInfo, Response, ResponseView};
use crate::storage::state_store::{
    clone_bids, missing, missing_row, Bid, BidList, BidListView, BidView, Store, StoreView,
};
use crate::util::helpers::Step;
use crate::util::text::contains_text;
use vstd::prelude::*;

verus! {

/// The bids of everyone but `who`, in their order.
pub open spec fn other_bids(bids: Seq<BidView>, who: Seq<char>) -> Seq<BidView>
    decreases bids.len(),
{
    if bids.len() == 0 {
        seq![]
    } else if bids.last().buyer_address == who {
        other_bids(bids.drop_last(), who)
    } else {
        other_bids(bids.drop_last(), who).push(bids.last())
    }
}

/// An owned copy of the bids of everyone but `who`, in their order.
pub fn bids_without(bids: &Vec<Bid>, who: &String) -> (r: Vec<Bid>)
    ensures
        r.deep_view() == other_bids(bids.deep_view(), who@),
{
    let mut out: Vec<Bid> = Vec::new();
    let mut i: usize = 0;
    assert(bids.deep_view().take(0) =~= seq![]);
    assert(out.deep_view() =~= seq![]);
    while i < bids.len()
        invariant
            i <= bids.len(),
            out.deep_view() == other_bids(bids.deep_view().take(i as int), who@),
        decreases bids.len() - i,
    {
        let ghost before = out.deep_view();
        proof {
            let all = bids.deep_view();
            assert(all.take(i + 1).drop_last() =~= all.take(i as int));
            assert(all.take(i + 1).last() == bids[i as int]@);
        }
        if bids[i].buyer_address != *who {
            out.push(bids[i].clone());
            assert(out.deep_view() =~= before.push(bids[i as int]@));
        }
        i = i + 1;
    }
    assert(bids.deep_view().take(i as int) =~= bids.deep_view());
    out
}

/// The bids after `who` has submitted `hash`: the bids of the others as they
/// stood, then the one bid of `who`.
pub open spec fn bids_with(bids: Seq<BidView>, who: Seq<char>, hash: Seq<char>) -> Seq<BidView> {
    other_bids(bids, who).push(BidView { buyer_address: who, agreement_terms_hash: hash })
}

/// A prospective buyer submits a bid under the agreement `hash`. Where buyers
/// are private, the bidder must be listed and the number of standing bids
/// must be below the limit. The bid replaces any earlier bid of the bidder.
pub open spec fn add_bid_step(pre: StoreView, sender: Seq<char>, hash: Seq<char>) -> Step {
    if pre.config is None {
        Step::fail(pre, missing_row("config"@))
    } else if pre.bid_list is None {
        Step::fail(pre, missing_row("buyer_list"@))
    } else {
        let config = pre.config->0;
        let bids = pre.bid_list->0.bids;
        if config.use_private_buyers && !config.allowed_buyers.contains(sender) {
            Step::fail(pre, ContractErrorView::UnauthorizedPrivateBuyer)
        } else if config.use_private_buyers && bids.len() >= config.max_bid_count {
            Step::fail(pre, ContractErrorView::MaxPrivateBuyersReached)
        } else {
            let updated = bids_with(bids, sender, hash);
            Step::done(
                StoreView { bid_list: Some(BidListView { bids: updated }), ..pre },
                ResponseView::reporting(seq![], AttributeView::BidList(updated)),
            )
        }
    }
}

/// Runs the submission of a bid; see [`add_bid_step`].
pub fn execute_add_bidder(store: &mut Store, info: MessageInfo, agreement_terms_hash: String) -> (r:
    Result<Response, ContractError>)
    ensures
        add_bid_step(old(store)@, info.sender@, agreement_terms_hash@).describes(final(store)@, r),
{
    let config = match &store.config {
        None => {
            return Err(missing("config"));
        },
        Some(config) => config,
    };
    let bid_list = match &store.bid_list {
        None => {
            return Err(missing("buyer_list"));
        },
        Some(list) => list,
    };
    if config.use_private_buyers {
        if !contains_text(&config.allowed_buyers, &info.sender) {
            return Err(ContractError::UnauthorizedPrivateBuyer);
        }
        if config.max_bid_count < 0 || bid_list.bids.len() >= config.max_bid_count as usize {
            return Err(ContractError::MaxPrivateBuyersReached);
        }
    }
    let mut updated_bid_list = bids_without(&bid_list.bids, &info.sender);
    let ghost others = updated_bid_list.deep_view();
    let bid = Bid { buyer_address: info.sender, agreement_terms_hash };
    let ghost added = bid@;
    updated_bid_list.push(bid);
    assert(updated_bid_list.deep_view() =~= others.push(added));
    let reported = clone_bids(&updated_bid_list);
    store.bid_list = Some(BidList { bids: updated_bid_list });
    let response = Response::new().add_attribute(Attribute::BidList(reported));
    proof {
        let step = add_bid_step(old(store)@, info.sender@, agreement_terms_hash@);
        assert(response@.messages =~= step.result->Ok_0.messages);
        assert(response@.attributes =~= step.result->Ok_0.attributes);
    }
    Ok(response)
}

} // verus!
