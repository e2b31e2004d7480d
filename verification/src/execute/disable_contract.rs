use crate::error::{ContractError, ContractErrorView};
use crate::registry::{MarkerMsg, Registry, RegistryView};
use crate::response::{Attribute, AttributeView, Env, MessageInfo, Response, ResponseView};
use crate::storage::state_store::{
    missing, missing_row, ConfigView, SellerView, Store, StoreView,
};
use crate::util::helpers::{collect_custody_moves, custody_moves, Step};
use crate::util::text::contains_text;
use vstd::prelude::*;

verus! {

/// The admin or a dealer disables the contract for good. A locked pool is
/// first returned to the seller; no buyer stays bound; and from then on the
/// configuration says that the contract is disabled.
pub open spec fn disable_contract_step(
    pre: StoreView,
    registry: RegistryView,
    contract: Seq<char>,
    sender: Seq<char>,
) -> Step {
    if pre.config is None {
        Step::fail(pre, missing_row("config"@))
    } else if !pre.config->0.is_admin(sender) && !pre.config->0.is_dealer(sender) {
        Step::fail(pre, ContractErrorView::UnauthorizedDisableRequest)
    } else {
        let config = ConfigView { is_disabled: true, ..pre.config->0 };
        if pre.seller_has_finalized() {
            let held = pre.seller->0;
            match custody_moves(
                registry,
                held.pool_denoms,
                None,
                contract,
                contract,
                held.seller_address,
            ) {
                Err(e) => Step::fail(pre, e),
                Ok(moves) => Step::done(
                    StoreView {
                        config: Some(config),
                        seller: Some(SellerView { pool_denoms: seq![], ..held }),
                        buyer: None,
                        ..pre
                    },
                    ResponseView::reporting(moves, AttributeView::ContractConfig(config)),
                ),
            }
        } else {
            Step::done(
                StoreView { config: Some(config), buyer: None, ..pre },
                ResponseView::reporting(seq![], AttributeView::ContractConfig(config)),
            )
        }
    }
}

/// Runs the disabling of the contract; see [`disable_contract_step`].
pub fn execute_disable_contract(
    store: &mut Store,
    registry: &Registry,
    env: Env,
    info: MessageInfo,
) -> (r: Result<Response, ContractError>)
    ensures
        disable_contract_step(
            old(store)@,
            registry@,
            env.contract.address@,
            info.sender@,
        ).describes(final(store)@, r),
{
    let mut updated_contract_config = match &store.config {
        None => {
            return Err(missing("config"));
        },
        Some(config) => {
            if info.sender != config.contract_admin && !contains_text(
                &config.dealers,
                &info.sender,
            ) {
                return Err(ContractError::UnauthorizedDisableRequest);
            }
            config.clone()
        },
    };
    let mut messages: Vec<MarkerMsg> = Vec::new();
    assert(messages.deep_view() =~= seq![]);
    let finalized = match &store.seller {
        None => None,
        Some(seller) => if seller.pool_denoms.len() != 0 {
            Some(seller.clone())
        } else {
            None
        },
    };
    match finalized {
        None => {},
        Some(mut seller) => {
            messages = match collect_custody_moves(
                registry,
                &seller.pool_denoms,
                None,
                &env.contract.address,
                &env.contract.address,
                &seller.seller_address,
            ) {
                Err(e) => {
                    return Err(e);
                },
                Ok(messages) => messages,
            };
            seller.pool_denoms = Vec::new();
            assert(seller.pool_denoms.deep_view() =~= seq![]);
            store.seller = Some(seller);
        },
    }
    store.buyer = None;
    updated_contract_config.is_disabled = true;
    let reported = updated_contract_config.clone();
    store.config = Some(updated_contract_config);
    let response = Response::new().add_messages(messages).add_attribute(
        Attribute::ContractConfig(reported),
    );
    proof {
        let step = disable_contract_step(
            old(store)@,
            registry@,
            env.contract.address@,
            info.sender@,
        );
        assert(response@.messages =~= step.result->Ok_0.messages);
        assert(response@.attributes =~= step.result->Ok_0.attributes);
    }
    Ok(response)
}

} // verus!
