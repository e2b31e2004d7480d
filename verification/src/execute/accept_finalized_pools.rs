use crate::error::{ContractError, ContractErrorView};
use crate::response::{Attribute, AttributeView, MessageInfo, Response, ResponseView};
use crate::storage::state_store::{BuyerView, Store, StoreView};
use crate::util::helpers::Step;
use vstd::prelude::*;

verus! {

/// The bound buyer accepts the finalized pool under the offer `hash`. Only the
/// bound buyer may; the seller must have finalized; the buyer must not have
/// accepted already; and `hash` must be the seller's current offer.
pub open spec fn accept_finalized_pools_step(
    pre: StoreView,
    sender: Seq<char>,
    hash: Seq<char>,
) -> Step {
    if !pre.is_buyer(sender) {
        Step::fail(pre, ContractErrorView::IllegalAcceptingParty)
    } else if !pre.seller_has_finalized() {
        Step::fail(pre, ContractErrorView::IllegalPoolAcceptanceRequest)
    } else if pre.buyer_has_accepted() {
        Step::fail(pre, ContractErrorView::PoolAlreadyAccepted)
    } else if hash != pre.seller->0.offer_hash {
        Step::fail(pre, ContractErrorView::InvalidOfferHash)
    } else {
        let buyer = BuyerView { buyer_has_accepted_pools: true, ..pre.buyer->0 };
        Step::done(
            StoreView { buyer: Some(buyer), ..pre },
            ResponseView::reporting(seq![], AttributeView::Buyer(buyer)),
        )
    }
}

/// Runs the buyer's acceptance of the locked pool; see [`accept_finalized_pools_step`].
pub fn execute_accept_finalized_pools(
    store: &mut Store,
    info: MessageInfo,
    offer_hash: String,
) -> (r: Result<Response, ContractError>)
    ensures
        accept_finalized_pools_step(old(store)@, info.sender@, offer_hash@).describes(
            final(store)@,
            r,
        ),
{
    let mut current_buyer = match &store.buyer {
        None => {
            return Err(ContractError::IllegalAcceptingParty);
        },
        Some(buyer) => {
            if buyer.buyer_address != info.sender {
                return Err(ContractError::IllegalAcceptingParty);
            }
            buyer.clone()
        },
    };
    let seller_state = match &store.seller {
        None => {
            return Err(ContractError::IllegalPoolAcceptanceRequest);
        },
        Some(seller) => seller,
    };
    if seller_state.pool_denoms.len() == 0 {
        return Err(ContractError::IllegalPoolAcceptanceRequest);
    }
    if current_buyer.buyer_has_accepted_pools {
        return Err(ContractError::PoolAlreadyAccepted);
    }
    if offer_hash != seller_state.offer_hash {
        return Err(ContractError::InvalidOfferHash);
    }
    current_buyer.buyer_has_accepted_pools = true;
    let reported = current_buyer.clone();
    store.buyer = Some(current_buyer);
    let response = Response::new().add_attribute(Attribute::Buyer(reported));
    proof {
        let step = accept_finalized_pools_step(old(store)@, info.sender@, offer_hash@);
        assert(response@.messages =~= step.result->Ok_0.messages);
        assert(response@.attributes =~= step.result->Ok_0.attributes);
    }
    Ok(response)
}

} // verus!
