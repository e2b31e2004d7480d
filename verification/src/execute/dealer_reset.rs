use crate::error::{ContractError, ContractErrorView};
use crate::registry::{Registry, RegistryView};
use crate::response::{Attribute, AttributeView, Env, MessageInfo, Response, ResponseView};
use crate::storage::state_store::{missing, missing_row, SellerView, Store, StoreView};
use crate::util::helpers::{collect_custody_moves, custody_moves, Step};
use crate::util::text::contains_text;
use vstd::prelude::*;

verus! {

/// A dealer returns the trade to its start: the pool goes back to the seller,
/// the seller stays registered without a pool, and no buyer is bound. Only a
/// dealer may, and only where a seller is registered. The configuration is
/// left as it is.
pub open spec fn dealer_reset_step(
    pre: StoreView,
    registry: RegistryView,
    contract: Seq<char>,
    sender: Seq<char>,
) -> Step {
    if pre.config is None {
        Step::fail(pre, missing_row("config"@))
    } else if !pre.config->0.is_dealer(sender) {
        Step::fail(pre, ContractErrorView::IllegalDealerResetRequest)
    } else if pre.seller is None {
        Step::fail(pre, ContractErrorView::InvalidDealerResetRequest)
    } else {
        let held = pre.seller->0;
        match custody_moves(
            registry,
            held.pool_denoms,
            None,
            contract,
            contract,
            held.seller_address,
        ) {
            Err(e) => Step::fail(pre, e),
            Ok(moves) => {
                let seller = SellerView { pool_denoms: seq![], ..held };
                Step::done(
                    StoreView { seller: Some(seller), buyer: None, ..pre },
                    ResponseView::reporting(moves, AttributeView::SellerState(seller)),
                )
            },
        }
    }
}

/// Runs a dealer's reset of the trade; see [`dealer_reset_step`].
pub fn execute_dealer_reset(
    store: &mut Store,
    registry: &Registry,
    env: Env,
    info: MessageInfo,
) -> (r: Result<Response, ContractError>)
    ensures
        dealer_reset_step(old(store)@, registry@, env.contract.address@, info.sender@).describes(
            final(store)@,
            r,
        ),
{
    match &store.config {
        None => {
            return Err(missing("config"));
        },
        Some(config) => {
            if !contains_text(&config.dealers, &info.sender) {
                return Err(ContractError::IllegalDealerResetRequest);
            }
        },
    }
    let mut seller = match &store.seller {
        None => {
            return Err(ContractError::InvalidDealerResetRequest);
        },
        Some(seller) => seller.clone(),
    };
    let transfer_messages = match collect_custody_moves(
        registry,
        &seller.pool_denoms,
        None,
        &env.contract.address,
        &env.contract.address,
        &seller.seller_address,
    ) {
        Err(e) => {
            return Err(e);
        },
        Ok(messages) => messages,
    };
    seller.pool_denoms = Vec::new();
    assert(seller.pool_denoms.deep_view() =~= seq![]);
    let reported = seller.clone();
    store.seller = Some(seller);
    store.buyer = None;
    let response = Response::new().add_messages(transfer_messages).add_attribute(
        Attribute::SellerState(reported),
    );
    proof {
        let step = dealer_reset_step(old(store)@, registry@, env.contract.address@, info.sender@);
        assert(response@.messages =~= step.result->Ok_0.messages);
        assert(response@.attributes =~= step.result->Ok_0.attributes);
    }
    Ok(response)
}

} // verus!
