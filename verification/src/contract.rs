use crate::error::{result_view, ContractError, ContractErrorView};
use crate::execute::accept_bid::{accept_bid_step, execute_accept_bid};
use crate::execute::accept_finalized_pools::{
    accept_finalized_pools_step, execute_accept_finalized_pools,
};
use crate::execute::add_bidder::{add_bid_step, execute_add_bidder};
use crate::execute::add_seller::{add_seller_step, execute_add_seller};
use crate::execute::dealer_confirm::{dealer_confirm_step, execute_dealer_confirm};
use crate::execute::dealer_reset::{dealer_reset_step, execute_dealer_reset};
use crate::execute::disable_contract::{disable_contract_step, execute_disable_contract};
use crate::execute::finalize_pools::{execute_finalize_pools, finalize_pools_step};
use crate::execute::mint_tokens::{execute_mint_tokens, mint_tokens_step};
use crate::execute::remove_as_seller::{execute_remove_as_seller, remove_as_seller_step};
use crate::execute::rescind_bid::{execute_rescind_bid, rescind_bid_step};
use crate::execute::rescind_finalized_pools::{
    execute_rescind_finalized_pools, rescind_finalized_pools_step,
};
use crate::execute::update_allowed_buyers::{
    execute_update_allowed_buyers, update_allowed_buyers_step,
};
use crate::execute::update_allowed_sellers::{
    execute_update_allowed_sellers, update_allowed_sellers_step,
};
use crate::execute::update_face_value_cents::{
    execute_update_face_value_cents, update_face_value_cents_step,
};
use crate::execute::update_seller_offer_hash::{
    execute_update_seller_offer_hash, update_seller_offer_hash_step,
};
use crate::instantiate::instantiate_contract::{instantiate_contract, instantiate_step};
use crate::migrate::migrate::{migrate_contract, migrate_step};
use crate::msg::{
    ExecuteMsg, ExecuteMsgView, GetContractStateResponse, InstantiateContractMsg, MigrateMsg,
    QueryMsg,
};
use crate::query::contract_state::{query_contract_state, snapshot};
use crate::registry::{Registry, RegistryView};
use crate::response::{Env, MessageInfo, Response};
use crate::storage::state_store::{missing, missing_row, Store, StoreView};
use crate::util::helpers::Step;
use vstd::prelude::*;

verus! {

/// Sets an instance up; see [`instantiate_step`].
pub fn instantiate(store: &mut Store, env: Env, info: MessageInfo, msg: InstantiateContractMsg) -> (r:
    Result<Response, ContractError>)
    ensures
        instantiate_step(old(store)@, info.sender@, msg@).describes(final(store)@, r),
{
    instantiate_contract(store, env, info, msg)
}

/// What the command `msg` makes of `pre`, once the two guards have let it
/// pass: the step of the command that `msg` names.
pub open spec fn command_step(
    pre: StoreView,
    registry: RegistryView,
    contract: Seq<char>,
    height: u64,
    sender: Seq<char>,
    msg: ExecuteMsgView,
) -> Step {
    match msg {
        ExecuteMsgView::AddSeller { accepted_value_cents, offer_hash } => add_seller_step(
            pre,
            sender,
            accepted_value_cents,
            offer_hash,
        ),
        ExecuteMsgView::UpdateSellerOfferHash { offer_hash } => update_seller_offer_hash_step(
            pre,
            sender,
            offer_hash,
        ),
        ExecuteMsgView::RemoveAsSeller => remove_as_seller_step(pre, sender),
        ExecuteMsgView::FinalizePools { pool_denoms } => finalize_pools_step(
            pre,
            registry,
            contract,
            sender,
            pool_denoms,
        ),
        ExecuteMsgView::RescindFinalizedPools => rescind_finalized_pools_step(
            pre,
            registry,
            contract,
            sender,
        ),
        ExecuteMsgView::AddBid { agreement_terms_hash } => add_bid_step(
            pre,
            sender,
            agreement_terms_hash,
        ),
        ExecuteMsgView::RescindBid => rescind_bid_step(pre, sender),
        ExecuteMsgView::AcceptBid { bidder_address, agreement_terms_hash } => accept_bid_step(
            pre,
            contract,
            sender,
            bidder_address,
            agreement_terms_hash,
        ),
        ExecuteMsgView::AcceptFinalizedPools { offer_hash } => accept_finalized_pools_step(
            pre,
            sender,
            offer_hash,
        ),
        ExecuteMsgView::UpdateAllowedSellers { allowed_sellers } => update_allowed_sellers_step(
            pre,
            sender,
            allowed_sellers,
        ),
        ExecuteMsgView::UpdateAllowedBuyers { allowed_buyers } => update_allowed_buyers_step(
            pre,
            sender,
            allowed_buyers,
        ),
        ExecuteMsgView::UpdateFaceValueCents {
            min_face_value_cents,
            max_face_value_cents,
            tick_size,
        } => update_face_value_cents_step(
            pre,
            sender,
            min_face_value_cents,
            max_face_value_cents,
            tick_size,
        ),
        ExecuteMsgView::MintTokens { token_count, token_denom } => mint_tokens_step(
            pre,
            sender,
            token_count,
            token_denom,
        ),
        ExecuteMsgView::DealerConfirm => dealer_confirm_step(
            pre,
            registry,
            contract,
            height,
            sender,
        ),
        ExecuteMsgView::DealerReset => dealer_reset_step(pre, registry, contract, sender),
        ExecuteMsgView::ContractDisable => disable_contract_step(pre, registry, contract, sender),
    }
}

/// What any command makes of `pre`. Two guards stand before every command: a
/// settled trade accepts none, and a disabled contract accepts none. A
/// command that fails leaves the store as it found it.
pub open spec fn execute_step(
    pre: StoreView,
    registry: RegistryView,
    contract: Seq<char>,
    height: u64,
    sender: Seq<char>,
    msg: ExecuteMsgView,
) -> Step {
    if pre.settlement_data is Some {
        Step::fail(pre, ContractErrorView::IllegalContractExecution)
    } else if pre.config is None {
        Step::fail(pre, missing_row("config"@))
    } else if pre.config->0.is_disabled {
        Step::fail(pre, ContractErrorView::InvalidContractExecution)
    } else {
        command_step(pre, registry, contract, height, sender, msg)
    }
}

/// Runs one command against the store, with the registry's answers at hand.
pub fn execute(
    store: &mut Store,
    registry: &Registry,
    env: Env,
    info: MessageInfo,
    msg: ExecuteMsg,
) -> (r: Result<Response, ContractError>)
    ensures
        execute_step(
            old(store)@,
            registry@,
            env.contract.address@,
            env.block.height,
            info.sender@,
            msg@,
        ).describes(final(store)@, r),
{
    if store.settlement_data.is_some() {
        return Err(ContractError::IllegalContractExecution);
    }
    let is_disabled = match &store.config {
        None => {
            return Err(missing("config"));
        },
        Some(config) => config.is_disabled,
    };
    if is_disabled {
        return Err(ContractError::InvalidContractExecution);
    }
    match msg {
        ExecuteMsg::AddSeller { accepted_value_cents, offer_hash } => execute_add_seller(
            store,
            info,
            accepted_value_cents,
            offer_hash,
        ),
        ExecuteMsg::UpdateSellerOfferHash { offer_hash } => execute_update_seller_offer_hash(
            store,
            info,
            offer_hash,
        ),
        ExecuteMsg::RemoveAsSeller {} => execute_remove_as_seller(store, info),
        ExecuteMsg::FinalizePools { pool_denoms } => execute_finalize_pools(
            store,
            registry,
            env,
            info,
            &pool_denoms,
        ),
        ExecuteMsg::RescindFinalizedPools {} => execute_rescind_finalized_pools(
            store,
            registry,
            env,
            info,
        ),
        ExecuteMsg::AddBid { agreement_terms_hash } => execute_add_bidder(
            store,
            info,
            agreement_terms_hash,
        ),
        ExecuteMsg::RescindBid {} => execute_rescind_bid(store, info),
        ExecuteMsg::AcceptBid { bidder_address, agreement_terms_hash } => execute_accept_bid(
            store,
            env,
            info,
            bidder_address,
            agreement_terms_hash,
        ),
        ExecuteMsg::AcceptFinalizedPools { offer_hash } => execute_accept_finalized_pools(
            store,
            info,
            offer_hash,
        ),
        ExecuteMsg::UpdateAllowedSellers { allowed_sellers } => execute_update_allowed_sellers(
            store,
            info,
            allowed_sellers,
        ),
        ExecuteMsg::UpdateAllowedBuyers { allowed_buyers } => execute_update_allowed_buyers(
            store,
            info,
            allowed_buyers,
        ),
        ExecuteMsg::UpdateFaceValueCents {
            min_face_value_cents,
            max_face_value_cents,
            tick_size,
        } => execute_update_face_value_cents(
            store,
            info,
            min_face_value_cents,
            max_face_value_cents,
            tick_size,
        ),
        ExecuteMsg::MintTokens { token_count, token_denom } => execute_mint_tokens(
            store,
            env,
            info,
            token_count,
            token_denom,
        ),
        ExecuteMsg::DealerConfirm {} => execute_dealer_confirm(store, registry, env, info),
        ExecuteMsg::DealerReset {} => execute_dealer_reset(store, registry, env, info),
        ExecuteMsg::ContractDisable {} => execute_disable_contract(store, registry, env, info),
    }
}

/// Reads the state; see [`snapshot`].
pub fn query(store: &Store, _env: Env, msg: QueryMsg) -> (r: Result<
    GetContractStateResponse,
    ContractError,
>)
    ensures
        result_view(r) == snapshot(store@),
{
    match msg {
        QueryMsg::GetContractState {} => query_contract_state(store),
    }
}

/// Moves the instance to the version of this code; see [`migrate_step`].
pub fn migrate(store: &mut Store, _env: Env, msg: MigrateMsg) -> (r: Result<
    Response,
    ContractError,
>)
    ensures
        migrate_step(old(store)@).describes(final(store)@, r),
{
    match msg {
        MigrateMsg::ContractUpgrade {} => migrate_contract(store),
    }
}

} // verus!
