use crate::error::{ContractError, ContractErrorView};
use crate::registry::{Registry, RegistryView};
use crate::response::{Attribute, AttributeView, Env, MessageInfo, Response, ResponseView};
use crate::storage::state_store::{SellerView, Store, StoreView};
use crate::util::helpers::{collect_custody_moves, custody_moves, Step};
use crate::util::text::clone_texts;
use vstd::prelude::*;

verus! {

/// The seller locks the pool `denoms` into the contract's custody. Only the
/// seller may; the pool must not be empty; no pool may be locked already; and
/// the seller must be the sole holder of every denomination. Custody of each
/// denomination moves from the seller to the contract.
pub open spec fn finalize_pools_step(
    pre: StoreView,
    registry: RegistryView,
    contract: Seq<char>,
    sender: Seq<char>,
    denoms: Seq<Seq<char>>,
) -> Step {
    if !pre.is_seller(sender) {
        Step::fail(pre, ContractErrorView::UnauthorizedAsSeller)
    } else if denoms.len() == 0 {
        Step::fail(pre, ContractErrorView::InvalidFinalizationRequest)
    } else if pre.seller_has_finalized() {
        Step::fail(pre, ContractErrorView::PoolAlreadyFinalized)
    } else {
        match custody_moves(registry, denoms, Some(sender), contract, sender, contract) {
            Err(e) => Step::fail(pre, e),
            Ok(moves) => {
                let seller = SellerView { pool_denoms: denoms, ..pre.seller->0 };
                Step::done(
                    StoreView { seller: Some(seller), ..pre },
                    ResponseView::reporting(moves, AttributeView::SellerState(seller)),
                )
            },
        }
    }
}

/// Runs the seller's locking of a pool; see [`finalize_pools_step`].
pub fn execute_finalize_pools(
    store: &mut Store,
    registry: &Registry,
    env: Env,
    info: MessageInfo,
    pool_denoms: &Vec<String>,
) -> (r: Result<Response, ContractError>)
    ensures
        finalize_pools_step(
            old(store)@,
            registry@,
            env.contract.address@,
            info.sender@,
            pool_denoms.deep_view(),
        ).describes(final(store)@, r),
{
    let mut updated_seller = match &store.seller {
        None => {
            return Err(ContractError::UnauthorizedAsSeller);
        },
        Some(seller) => {
            if seller.seller_address != info.sender {
                return Err(ContractError::UnauthorizedAsSeller);
            }
            seller.clone()
        },
    };
    if pool_denoms.len() == 0 {
        return Err(ContractError::InvalidFinalizationRequest);
    }
    if updated_seller.pool_denoms.len() != 0 {
        return Err(ContractError::PoolAlreadyFinalized);
    }
    let messages = match collect_custody_moves(
        registry,
        pool_denoms,
        Some(&info.sender),
        &env.contract.address,
        &info.sender,
        &env.contract.address,
    ) {
        Err(e) => {
            return Err(e);
        },
        Ok(messages) => messages,
    };
    updated_seller.pool_denoms = clone_texts(pool_denoms);
    let reported = updated_seller.clone();
    store.seller = Some(updated_seller);
    let response = Response::new().add_messages(messages).add_attribute(
        Attribute::SellerState(reported),
    );
    proof {
        let step = finalize_pools_step(
            old(store)@,
            registry@,
            env.contract.address@,
            info.sender@,
            pool_denoms.deep_view(),
        );
        assert(response@.messages =~= step.result->Ok_0.messages);
        assert(response@.attributes =~= step.result->Ok_0.attributes);
    }
    Ok(response)
}

} // verus!
