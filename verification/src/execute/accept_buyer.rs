use crate::error::{result_view, ContractError, ContractErrorView};
use crate::response::{Attribute, AttributeView, Env, MessageInfo, Response, ResponseView};
use crate::storage::state_store::{
    missing, missing_row, Bid, BidView, Buyer, BuyerView, Store, StoreView,
};
use crate::util::helpers::{
    create_and_transfer_marker, face_value_check, marker_creation, validate_face_values, Step,
};
use crate::util::text::clone_texts;
use vstd::prelude::*;

verus! {

/// The first bid of `who` among `bids`, if there is one.
pub open spec fn find_bid(bids: Seq<BidView>, who: Seq<char>) -> Option<BidView>
    decreases bids.len(),
{
    if bids.len() == 0 {
        None
    } else if bids[0].buyer_address == who {
        Some(bids[0])
    } else {
        find_bid(bids.drop_first(), who)
    }
}

/// The position of the first bid of `who` among `bids`.
pub fn find_bid_index(bids: &Vec<Bid>, who: &String) -> (r: Option<usize>)
    ensures
        r is None <==> find_bid(bids.deep_view(), who@) is None,
        r matches Some(i) ==> i < bids.len() && find_bid(bids.deep_view(), who@) == Some(
            bids[i as int]@,
        ),
{
    let mut i: usize = 0;
    assert(bids.deep_view().skip(0) =~= bids.deep_view());
    while i < bids.len()
        invariant
            i <= bids.len(),
            find_bid(bids.deep_view(), who@) == find_bid(bids.deep_view().skip(i as int), who@),
        decreases bids.len() - i,
    {
        assert(bids.deep_view().skip(i as int)[0] == bids[i as int]@);
        if bids[i].buyer_address == *who {
            return Some(i);
        }
        assert(bids.deep_view().skip(i as int).drop_first() =~= bids.deep_view().skip(i + 1));
        i = i + 1;
    }
    None
}

/// The buyer that accepting the bid of `bidder` under `hash` binds, or why the
/// bid cannot be accepted: no bid of the bidder stands, the bid carries
/// another agreement than `hash`, or a bid was accepted before.
pub open spec fn accepted_bid(pre: StoreView, bidder: Seq<char>, hash: Seq<char>) -> Result<
    BuyerView,
    ContractErrorView,
> {
    match pre.bid_list {
        None => Err(missing_row("buyer_list"@)),
        Some(list) => match find_bid(list.bids, bidder) {
            None => Err(ContractErrorView::BidDoesNotExist { address: bidder }),
            Some(bid) => if bid.agreement_terms_hash != hash {
                Err(ContractErrorView::InvalidAgreementTermsHash)
            } else if pre.buyer is Some {
                Err(
                    ContractErrorView::BidPreviouslyAccepted {
                        address: pre.buyer->0.buyer_address,
                    },
                )
            } else {
                Ok(
                    BuyerView {
                        buyer_address: bidder,
                        buyer_has_accepted_pools: false,
                        agreement_terms_hash: hash,
                    },
                )
            },
        },
    }
}

/// Decides whether the bid of `bidder` can be accepted under `hash`; see
/// [`accepted_bid`].
pub fn check_accepted_bid(store: &Store, bidder: &String, hash: &String) -> (r: Result<
    Buyer,
    ContractError,
>)
    ensures
        result_view(r) == accepted_bid(store@, bidder@, hash@),
{
    let list = match &store.bid_list {
        None => {
            return Err(missing("buyer_list"));
        },
        Some(list) => list,
    };
    let index = match find_bid_index(&list.bids, bidder) {
        None => {
            return Err(ContractError::BidDoesNotExist { address: bidder.clone() });
        },
        Some(index) => index,
    };
    if list.bids[index].agreement_terms_hash != *hash {
        return Err(ContractError::InvalidAgreementTermsHash);
    }
    match &store.buyer {
        None => {},
        Some(buyer) => {
            return Err(
                ContractError::BidPreviouslyAccepted { address: buyer.buyer_address.clone() },
            );
        },
    }
    Ok(
        Buyer {
            buyer_address: bidder.clone(),
            buyer_has_accepted_pools: false,
            agreement_terms_hash: hash.clone(),
        },
    )
}

/// The seller accepts the bid of `bidder` under the agreement `hash`, and the
/// settlement token is created from the face-value terms: as many units as
/// the seller's accepted value holds ticks. Only the seller may; the terms
/// must be configured and valid; the bid must stand and carry `hash`; no bid
/// may have been accepted before; and the seller must have named a value.
pub open spec fn accept_buyer_step(
    pre: StoreView,
    contract: Seq<char>,
    sender: Seq<char>,
    bidder: Seq<char>,
    hash: Seq<char>,
) -> Step {
    if !pre.is_seller(sender) {
        Step::fail(pre, ContractErrorView::UnauthorizedAsSeller)
    } else if pre.config is None {
        Step::fail(pre, missing_row("config"@))
    } else if pre.config->0.face_value is None {
        Step::fail(pre, ContractErrorView::FaceValueNotConfigured)
    } else {
        let terms = pre.config->0.face_value->0;
        match accepted_bid(pre, bidder, hash) {
            Err(e) => Step::fail(pre, e),
            Ok(buyer) => match face_value_check(
                terms.min_face_value_cents,
                terms.max_face_value_cents,
                terms.tick_size,
            ) {
                Err(e) => Step::fail(pre, e),
                Ok(_) => match pre.seller->0.accepted_value_cents {
                    None => Step::fail(pre, ContractErrorView::AcceptedValueMustBePositive),
                    Some(value) => Step::done(
                        StoreView { buyer: Some(buyer), ..pre },
                        ResponseView::reporting(
                            marker_creation(
                                contract,
                                terms.token_denom,
                                value / terms.tick_size,
                                bidder,
                                pre.config->0.dealers,
                            ),
                            AttributeView::Buyer(buyer),
                        ),
                    ),
                },
            },
        }
    }
}

/// Runs the seller's acceptance of a bid under face-value terms; see [`accept_buyer_step`].
pub fn execute_accept_buyer(
    store: &mut Store,
    env: Env,
    info: MessageInfo,
    buyer_address_str: String,
    agreement_terms_hash: String,
) -> (r: Result<Response, ContractError>)
    ensures
        accept_buyer_step(
            old(store)@,
            env.contract.address@,
            info.sender@,
            buyer_address_str@,
            agreement_terms_hash@,
        ).describes(final(store)@, r),
{
    let accepted_value = match &store.seller {
        None => {
            return Err(ContractError::UnauthorizedAsSeller);
        },
        Some(seller) => {
            if seller.seller_address != info.sender {
                return Err(ContractError::UnauthorizedAsSeller);
            }
            seller.accepted_value_cents
        },
    };
    let config = match &store.config {
        None => {
            return Err(missing("config"));
        },
        Some(config) => config,
    };
    let terms = match &config.face_value {
        None => {
            return Err(ContractError::FaceValueNotConfigured);
        },
        Some(terms) => terms,
    };
    let buyer = match check_accepted_bid(store, &buyer_address_str, &agreement_terms_hash) {
        Err(e) => {
            return Err(e);
        },
        Ok(buyer) => buyer,
    };
    match validate_face_values(
        terms.min_face_value_cents,
        terms.max_face_value_cents,
        terms.tick_size,
    ) {
        Err(e) => {
            return Err(e);
        },
        Ok(_) => {},
    }
    let value = match accepted_value {
        None => {
            return Err(ContractError::AcceptedValueMustBePositive);
        },
        Some(value) => value,
    };
    let number_of_coins = value / terms.tick_size;
    let messages = create_and_transfer_marker(
        env.contract.address,
        terms.token_denom.clone(),
        number_of_coins,
        buyer_address_str,
        clone_texts(&config.dealers),
    );
    let reported = buyer.clone();
    store.buyer = Some(buyer);
    let response = Response::new().add_messages(messages).add_attribute(Attribute::Buyer(reported));
    proof {
        let step = accept_buyer_step(
            old(store)@,
            env.contract.address@,
            info.sender@,
            buyer_address_str@,
            agreement_terms_hash@,
        );
        assert(response@.messages =~= step.result->Ok_0.messages);
        assert(response@.attributes =~= step.result->Ok_0.attributes);
    }
    Ok(response)
}

} // verus!
