use crate::error::{unit_result_view, ContractError, ContractErrorView};
use crate::response::{Attribute, AttributeView, MessageInfo, Response, ResponseView};
use crate::storage::state_store::{
    missing, missing_row, FaceValue, FaceValueView, Seller, SellerView, Store, StoreView,
};
use crate::util::helpers::Step;
use crate::util::text::contains_text;
use vstd::prelude::*;

verus! {

/// The first defect of the value that a seller accepts under face-value terms;
/// none if it is a positive multiple of the tick within the bounds.
pub open spec fn accepted_value_check(terms: FaceValueView, value: Option<u128>) -> Result<
    (),
    ContractErrorView,
> {
    if value is None || value->0 == 0 {
        Err(ContractErrorView::AcceptedValueMustBePositive)
    } else if value->0 < terms.min_face_value_cents {
        Err(ContractErrorView::AcceptedValueLessThanMinFaceValue)
    } else if value->0 > terms.max_face_value_cents {
        Err(ContractErrorView::AcceptedValueExceedsMaxFaceValue)
    } else if terms.tick_size == 0 || value->0 % terms.tick_size != 0 {
        Err(ContractErrorView::InvalidTickSizeValueMatch)
    } else {
        Ok(())
    }
}

/// Checks the value that a seller accepts; see [`accepted_value_check`].
pub fn validate_accepted_value(terms: &FaceValue, value: Option<u128>) -> (r: Result<
    (),
    ContractError,
>)
    ensures
        unit_result_view(r) == accepted_value_check(terms@, value),
{
    let value = match value {
        None => {
            return Err(ContractError::AcceptedValueMustBePositive);
        },
        Some(value) => value,
    };
    if value == 0 {
        return Err(ContractError::AcceptedValueMustBePositive);
    }
    if value < terms.min_face_value_cents {
        return Err(ContractError::AcceptedValueLessThanMinFaceValue);
    }
    if value > terms.max_face_value_cents {
        return Err(ContractError::AcceptedValueExceedsMaxFaceValue);
    }
    if terms.tick_size == 0 || value % terms.tick_size != 0 {
        return Err(ContractError::InvalidTickSizeValueMatch);
    }
    Ok(())
}

/// The seller record of a newly registered seller: no pool yet.
pub open spec fn new_seller(sender: Seq<char>, value: Option<u128>, hash: Seq<char>) -> SellerView {
    SellerView {
        seller_address: sender,
        accepted_value_cents: value,
        pool_denoms: seq![],
        offer_hash: hash,
    }
}

/// The caller registers as the seller, with the offer `hash`. There is one
/// seller, once and for all; where sellers are private the caller must be
/// listed; and under face-value terms the accepted value must pass them.
pub open spec fn add_seller_step(
    pre: StoreView,
    sender: Seq<char>,
    value: Option<u128>,
    hash: Seq<char>,
) -> Step {
    if pre.seller is Some {
        Step::fail(pre, ContractErrorView::SellerAlreadyExists)
    } else if pre.config is None {
        Step::fail(pre, missing_row("config"@))
    } else {
        let config = pre.config->0;
        if config.use_private_sellers && !config.allowed_sellers.contains(sender) {
            Step::fail(pre, ContractErrorView::UnauthorizedPrivateSeller)
        } else if config.face_value is Some && accepted_value_check(config.face_value->0, value)
            is Err {
            Step::fail(pre, accepted_value_check(config.face_value->0, value)->Err_0)
        } else {
            Step::done(
                StoreView { seller: Some(new_seller(sender, value, hash)), ..pre },
                ResponseView::reporting(
                    seq![],
                    AttributeView::SellerState(new_seller(sender, value, hash)),
                ),
            )
        }
    }
}

/// Runs the registration of the seller; see [`add_seller_step`].
pub fn execute_add_seller(
    store: &mut Store,
    info: MessageInfo,
    accepted_value_cents: Option<u128>,
    offer_hash: String,
) -> (r: Result<Response, ContractError>)
    ensures
        add_seller_step(old(store)@, info.sender@, accepted_value_cents, offer_hash@).describes(
            final(store)@,
            r,
        ),
{
    if store.seller.is_some() {
        return Err(ContractError::SellerAlreadyExists);
    }
    let config = match &store.config {
        None => {
            return Err(missing("config"));
        },
        Some(config) => config,
    };
    if config.use_private_sellers && !contains_text(&config.allowed_sellers, &info.sender) {
        return Err(ContractError::UnauthorizedPrivateSeller);
    }
    match &config.face_value {
        None => {},
        Some(terms) => {
            match validate_accepted_value(terms, accepted_value_cents) {
                Err(e) => {
                    return Err(e);
                },
                Ok(_) => {},
            }
        },
    }
    let pool_denoms: Vec<String> = Vec::new();
    assert(pool_denoms.deep_view() =~= seq![]);
    let seller_state = Seller {
        seller_address: info.sender,
        accepted_value_cents,
        pool_denoms,
        offer_hash,
    };
    let reported = seller_state.clone();
    store.seller = Some(seller_state);
    let response = Response::new().add_attribute(Attribute::SellerState(reported));
    proof {
        let step = add_seller_step(old(store)@, info.sender@, accepted_value_cents, offer_hash@);
        assert(response@.messages =~= step.result->Ok_0.messages);
        assert(response@.attributes =~= step.result->Ok_0.attributes);
    }
    Ok(response)
}

} // verus!
