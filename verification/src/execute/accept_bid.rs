use crate::error::{ContractError, ContractErrorView};
use crate::execute::accept_buyer::{
    accept_buyer_step, accepted_bid, check_accepted_bid, execute_accept_buyer,
};
use crate::response::{Attribute, AttributeView, Env, MessageInfo, Response, ResponseView};
use crate::storage::state_store::{missing, missing_row, Store, StoreView};
use crate::util::helpers::{create_transfer_tokens_message, token_transfer, Step};
use vstd::prelude::*;

verus! {

/// The seller accepts the bid of `bidder` under the agreement `hash`. Only the
/// seller may; a settlement token must be at hand, either minted or to be
/// created from the face-value terms; the bid must stand and carry `hash`; and
/// no bid may have been accepted before. The bidder becomes the bound buyer,
/// not yet having accepted the pools, and is handed the settlement token: the
/// minted amount where tokens were minted, a newly created marker otherwise.
pub open spec fn accept_bid_step(
    pre: StoreView,
    contract: Seq<char>,
    sender: Seq<char>,
    bidder: Seq<char>,
    hash: Seq<char>,
) -> Step {
    if !pre.is_seller(sender) {
        Step::fail(pre, ContractErrorView::UnauthorizedAsSeller)
    } else if pre.config is None {
        Step::fail(pre, missing_row("config"@))
    } else if pre.token_data is None {
        if pre.config->0.face_value is None {
            Step::fail(pre, ContractErrorView::TokensNotMinted)
        } else {
            accept_buyer_step(pre, contract, sender, bidder, hash)
        }
    } else {
        match accepted_bid(pre, bidder, hash) {
            Err(e) => Step::fail(pre, e),
            Ok(buyer) => Step::done(
                StoreView { buyer: Some(buyer), ..pre },
                ResponseView::reporting(
                    token_transfer(
                        contract,
                        pre.token_data->0.token_denom,
                        pre.token_data->0.token_count,
                        bidder,
                    ),
                    AttributeView::Buyer(buyer),
                ),
            ),
        }
    }
}

/// Runs the seller's acceptance of a bid; see [`accept_bid_step`].
pub fn execute_accept_bid(
    store: &mut Store,
    env: Env,
    info: MessageInfo,
    bidder_address_str: String,
    agreement_terms_hash: String,
) -> (r: Result<Response, ContractError>)
    ensures
        accept_bid_step(
            old(store)@,
            env.contract.address@,
            info.sender@,
            bidder_address_str@,
            agreement_terms_hash@,
        ).describes(final(store)@, r),
{
    let is_seller = match &store.seller {
        None => false,
        Some(seller) => seller.seller_address == info.sender,
    };
    if !is_seller {
        return Err(ContractError::UnauthorizedAsSeller);
    }
    let has_terms = match &store.config {
        None => {
            return Err(missing("config"));
        },
        Some(config) => config.face_value.is_some(),
    };
    let token_data = match &store.token_data {
        None => {
            if !has_terms {
                return Err(ContractError::TokensNotMinted);
            }
            return execute_accept_buyer(store, env, info, bidder_address_str, agreement_terms_hash);
        },
        Some(token_data) => token_data.clone(),
    };
    let buyer = match check_accepted_bid(store, &bidder_address_str, &agreement_terms_hash) {
        Err(e) => {
            return Err(e);
        },
        Ok(buyer) => buyer,
    };
    let reported = buyer.clone();
    store.buyer = Some(buyer);
    let messages = create_transfer_tokens_message(
        env.contract.address,
        token_data.token_denom,
        token_data.token_count,
        bidder_address_str,
    );
    let response = Response::new().add_messages(messages).add_attribute(Attribute::Buyer(reported));
    proof {
        let step = accept_bid_step(
            old(store)@,
            env.contract.address@,
            info.sender@,
            bidder_address_str@,
            agreement_terms_hash@,
        );
        assert(response@.messages =~= step.result->Ok_0.messages);
        assert(response@.attributes =~= step.result->Ok_0.attributes);
    }
    Ok(response)
}

} // verus!
