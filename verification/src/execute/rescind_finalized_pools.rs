use crate::error::{ContractError, ContractErrorView};
use crate::registry::{Registry, RegistryView};
use crate::response::{Attribute, AttributeView, Env, MessageInfo, Response, ResponseView};
use crate::storage::state_store::{SellerView, Store, StoreView};
use crate::util::helpers::{collect_custody_moves, custody_moves, Step};
use vstd::prelude::*;

verus! {

/// The seller takes the locked pool back. Only the seller may, not after the
/// buyer has accepted, and only where a pool is locked. Custody of each
/// denomination moves from the contract back to the seller.
pub open spec fn rescind_finalized_pools_step(
    pre: StoreView,
    registry: RegistryView,
    contract: Seq<char>,
    sender: Seq<char>,
) -> Step {
    if !pre.is_seller(sender) {
        Step::fail(pre, ContractErrorView::UnauthorizedAsSeller)
    } else if pre.buyer_has_accepted() {
        Step::fail(pre, ContractErrorView::IllegalRescindRequest)
    } else if !pre.seller_has_finalized() {
        Step::fail(pre, ContractErrorView::InvalidRescindRequest)
    } else {
        let held = pre.seller->0;
        match custody_moves(
            registry,
            held.pool_denoms,
            None,
            contract,
            contract,
            held.seller_address,
        ) {
            Err(e) => Step::fail(pre, e),
            Ok(moves) => {
                let seller = SellerView { pool_denoms: seq![], ..held };
                Step::done(
                    StoreView { seller: Some(seller), ..pre },
                    ResponseView::reporting(moves, AttributeView::SellerState(seller)),
                )
            },
        }
    }
}

/// Runs the seller's taking back of the locked pool; see [`rescind_finalized_pools_step`].
pub fn execute_rescind_finalized_pools(
    store: &mut Store,
    registry: &Registry,
    env: Env,
    info: MessageInfo,
) -> (r: Result<Response, ContractError>)
    ensures
        rescind_finalized_pools_step(
            old(store)@,
            registry@,
            env.contract.address@,
            info.sender@,
        ).describes(final(store)@, r),
{
    let mut updated_seller_state = match &store.seller {
        None => {
            return Err(ContractError::UnauthorizedAsSeller);
        },
        Some(seller) => {
            if seller.seller_address != info.sender {
                return Err(ContractError::UnauthorizedAsSeller);
            }
            seller.clone()
        },
    };
    match &store.buyer {
        None => {},
        Some(buyer) => {
            if buyer.buyer_has_accepted_pools {
                return Err(ContractError::IllegalRescindRequest);
            }
        },
    }
    if updated_seller_state.pool_denoms.len() == 0 {
        return Err(ContractError::InvalidRescindRequest);
    }
    let messages = match collect_custody_moves(
        registry,
        &updated_seller_state.pool_denoms,
        None,
        &env.contract.address,
        &env.contract.address,
        &updated_seller_state.seller_address,
    ) {
        Err(e) => {
            return Err(e);
        },
        Ok(messages) => messages,
    };
    updated_seller_state.pool_denoms = Vec::new();
    assert(updated_seller_state.pool_denoms.deep_view() =~= seq![]);
    let reported = updated_seller_state.clone();
    store.seller = Some(updated_seller_state);
    let response = Response::new().add_messages(messages).add_attribute(
        Attribute::SellerState(reported),
    );
    proof {
        let step = rescind_finalized_pools_step(
            old(store)@,
            registry@,
            env.contract.address@,
            info.sender@,
        );
        assert(response@.messages =~= step.result->Ok_0.messages);
        assert(response@.attributes =~= step.result->Ok_0.attributes);
    }
    Ok(response)
}

} // verus!
