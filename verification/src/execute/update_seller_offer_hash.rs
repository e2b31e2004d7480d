use crate::error::{ContractError, ContractErrorView};
use crate::response::{Attribute, AttributeView, MessageInfo, Response, ResponseView};
use crate::storage::state_store::{SellerView, Store, StoreView};
use crate::util::helpers::Step;
use vstd::prelude::*;

verus! {

/// The seller replaces the fingerprint of its offer. Only the seller may, and
/// not after the buyer has accepted the pools under the old one.
pub open spec fn update_seller_offer_hash_step(
    pre: StoreView,
    sender: Seq<char>,
    hash: Seq<char>,
) -> Step {
    if !pre.is_seller(sender) {
        Step::fail(pre, ContractErrorView::UnauthorizedAsSeller)
    } else if pre.buyer_has_accepted() {
        Step::fail(pre, ContractErrorView::IllegalOfferHashUpdate)
    } else {
        let seller = SellerView { offer_hash: hash, ..pre.seller->0 };
        Step::done(
            StoreView { seller: Some(seller), ..pre },
            ResponseView::reporting(seq![], AttributeView::SellerState(seller)),
        )
    }
}

/// Runs the seller's replacement of its offer; see [`update_seller_offer_hash_step`].
pub fn execute_update_seller_offer_hash(
    store: &mut Store,
    info: MessageInfo,
    offer_hash: String,
) -> (r: Result<Response, ContractError>)
    ensures
        update_seller_offer_hash_step(old(store)@, info.sender@, offer_hash@).describes(
            final(store)@,
            r,
        ),
{
    let mut seller_state = match &store.seller {
        None => {
            return Err(ContractError::UnauthorizedAsSeller);
        },
        Some(seller) => {
            if seller.seller_address != info.sender {
                return Err(ContractError::UnauthorizedAsSeller);
            }
            seller.clone()
        },
    };
    match &store.buyer {
        None => {},
        Some(buyer) => {
            if buyer.buyer_has_accepted_pools {
                return Err(ContractError::IllegalOfferHashUpdate);
            }
        },
    }
    seller_state.offer_hash = offer_hash;
    let reported = seller_state.clone();
    store.seller = Some(seller_state);
    let response = Response::new().add_attribute(Attribute::SellerState(reported));
    proof {
        let step = update_seller_offer_hash_step(old(store)@, info.sender@, offer_hash@);
        assert(response@.messages =~= step.result->Ok_0.messages);
        assert(response@.attributes =~= step.result->Ok_0.attributes);
    }
    Ok(response)
}

} // verus!
