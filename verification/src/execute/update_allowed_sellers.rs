use crate::error::{ContractError, ContractErrorView};
use crate::response::{MessageInfo, Response};
use crate::storage::state_store::{missing, missing_row, ConfigView, Store, StoreView};
use crate::util::helpers::{update_config_as_admin, update_config_step, Step};
use vstd::prelude::*;

verus! {

/// The admin replaces the list of private sellers. This is for private sellers
/// only; for the rest see [`update_config_step`].
pub open spec fn update_allowed_sellers_step(
    pre: StoreView,
    sender: Seq<char>,
    allowed: Seq<Seq<char>>,
) -> Step {
    if pre.config is None {
        Step::fail(pre, missing_row("config"@))
    } else if !pre.config->0.use_private_sellers {
        Step::fail(pre, ContractErrorView::InvalidVisibilityConfig)
    } else {
        update_config_step(pre, sender, ConfigView { allowed_sellers: allowed, ..pre.config->0 })
    }
}

/// Runs the admin's replacement of the list of private sellers; see
/// [`update_allowed_sellers_step`].
pub fn execute_update_allowed_sellers(
    store: &mut Store,
    info: MessageInfo,
    allowed_sellers: Vec<String>,
) -> (r: Result<Response, ContractError>)
    ensures
        update_allowed_sellers_step(
            old(store)@,
            info.sender@,
            allowed_sellers.deep_view(),
        ).describes(final(store)@, r),
{
    let mut updated_config = match &store.config {
        None => {
            return Err(missing("config"));
        },
        Some(config) => config.clone(),
    };
    if !updated_config.use_private_sellers {
        return Err(ContractError::InvalidVisibilityConfig);
    }
    updated_config.allowed_sellers = allowed_sellers;
    update_config_as_admin(store, info, updated_config)
}

} // verus!
