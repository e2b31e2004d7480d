use crate::error::{ContractError, ContractErrorView};
use crate::registry::{MarkerMsg, MarkerMsgView, Registry, RegistryView};
use crate::response::{Env, MessageInfo, Response, ResponseView};
use crate::storage::state_store::{
    missing, missing_row, SettlementData, SettlementDataView, Store, StoreView,
};
use crate::util::helpers::{
    collect_custody_moves, custody_moves, get_marker, marker_account, Step,
};
use crate::util::text::contains_text;
use vstd::prelude::*;

verus! {

/// The denomination of the settlement token: that of the minted tokens, else
/// that of the face-value terms.
pub open spec fn settlement_denom(pre: StoreView) -> Option<Seq<char>> {
    match pre.token_data {
        Some(data) => Some(data.token_denom),
        None => match pre.config {
            Some(config) => match config.face_value {
                Some(terms) => Some(terms.token_denom),
                None => None,
            },
            None => None,
        },
    }
}

/// The instruction that takes the contract's own rights on `denom` away.
pub open spec fn access_removal(denom: Seq<char>, contract: Seq<char>) -> MarkerMsgView {
    MarkerMsgView::DeleteAccess { denom, administrator: contract, removed_address: contract }
}

/// A dealer settles the trade. Only a dealer may; the seller must have locked
/// a pool and the buyer must have accepted it; a private seller must still be
/// listed; and the settlement token must have a custody base account. Custody
/// of every pooled denomination moves from the contract to that account, the
/// settlement is recorded with the block height and the dealer, and the
/// contract gives up its rights on the settlement token.
pub open spec fn dealer_confirm_step(
    pre: StoreView,
    registry: RegistryView,
    contract: Seq<char>,
    height: u64,
    sender: Seq<char>,
) -> Step {
    if pre.config is None {
        Step::fail(pre, missing_row("config"@))
    } else if !pre.config->0.is_dealer(sender) {
        Step::fail(pre, ContractErrorView::IllegalConfirmationRequest)
    } else if !pre.seller_has_finalized() || !pre.buyer_has_accepted() {
        Step::fail(pre, ContractErrorView::InvalidConfirmationRequest)
    } else if settlement_denom(pre) is None {
        Step::fail(pre, ContractErrorView::TokensNotMinted)
    } else if pre.config->0.use_private_sellers && !pre.config->0.allowed_sellers.contains(
        pre.seller->0.seller_address,
    ) {
        Step::fail(pre, ContractErrorView::UnauthorizedPrivateSeller)
    } else {
        let denom = settlement_denom(pre)->0;
        match marker_account(registry, denom) {
            Err(e) => Step::fail(pre, e),
            Ok(marker) => match marker.base_address {
                None => Step::fail(pre, ContractErrorView::MissingMarkerBaseAccount { denom }),
                Some(base) => match custody_moves(
                    registry,
                    pre.seller->0.pool_denoms,
                    None,
                    contract,
                    contract,
                    base,
                ) {
                    Err(e) => Step::fail(pre, e),
                    Ok(moves) => Step::done(
                        StoreView {
                            settlement_data: Some(
                                SettlementDataView {
                                    block_height: height,
                                    settling_dealer: sender,
                                },
                            ),
                            ..pre
                        },
                        ResponseView {
                            messages: moves.push(access_removal(marker.denom, contract)),
                            attributes: seq![],
                        },
                    ),
                },
            },
        }
    }
}

/// Runs a dealer's settlement of the trade; see [`dealer_confirm_step`].
pub fn execute_dealer_confirm(
    store: &mut Store,
    registry: &Registry,
    env: Env,
    info: MessageInfo,
) -> (r: Result<Response, ContractError>)
    ensures
        dealer_confirm_step(
            old(store)@,
            registry@,
            env.contract.address@,
            env.block.height,
            info.sender@,
        ).describes(final(store)@, r),
{
    let config = match &store.config {
        None => {
            return Err(missing("config"));
        },
        Some(config) => config,
    };
    if !contains_text(&config.dealers, &info.sender) {
        return Err(ContractError::IllegalConfirmationRequest);
    }
    let seller_state = match &store.seller {
        None => {
            return Err(ContractError::InvalidConfirmationRequest);
        },
        Some(seller) => seller,
    };
    let buyer_accepted = match &store.buyer {
        None => false,
        Some(buyer) => buyer.buyer_has_accepted_pools,
    };
    if seller_state.pool_denoms.len() == 0 || !buyer_accepted {
        return Err(ContractError::InvalidConfirmationRequest);
    }
    let token_denom = match &store.token_data {
        Some(data) => data.token_denom.clone(),
        None => match &config.face_value {
            Some(terms) => terms.token_denom.clone(),
            None => {
                return Err(ContractError::TokensNotMinted);
            },
        },
    };
    if config.use_private_sellers && !contains_text(
        &config.allowed_sellers,
        &seller_state.seller_address,
    ) {
        return Err(ContractError::UnauthorizedPrivateSeller);
    }
    let forward_market_marker = match get_marker(token_denom.clone(), registry) {
        Err(e) => {
            return Err(e);
        },
        Ok(marker) => marker,
    };
    let forward_market_base_address = match &forward_market_marker.base_account {
        None => {
            return Err(ContractError::MissingMarkerBaseAccount { denom: token_denom });
        },
        Some(base_account) => base_account.address.clone(),
    };
    let messages = match collect_custody_moves(
        registry,
        &seller_state.pool_denoms,
        None,
        &env.contract.address,
        &env.contract.address,
        &forward_market_base_address,
    ) {
        Err(e) => {
            return Err(e);
        },
        Ok(messages) => messages,
    };
    let removal = MarkerMsg::DeleteAccess {
        denom: forward_market_marker.denom,
        administrator: env.contract.address.clone(),
        removed_address: env.contract.address.clone(),
    };
    store.settlement_data = Some(
        SettlementData { block_height: env.block.height, settling_dealer: info.sender },
    );
    let response = Response::new().add_messages(messages).add_message(removal);
    proof {
        let step = dealer_confirm_step(
            old(store)@,
            registry@,
            env.contract.address@,
            env.block.height,
            info.sender@,
        );
        assert(response@.messages =~= step.result->Ok_0.messages);
        assert(response@.attributes =~= step.result->Ok_0.attributes);
    }
    Ok(response)
}

} // verus!
