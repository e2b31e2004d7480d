use crate::error::{ContractError, ContractErrorView};
use crate::response::{MessageInfo, Response};
use crate::storage::state_store::{missing, missing_row, ConfigView, Store, StoreView};
use crate::util::helpers::{update_config_as_admin, update_config_step, Step};
use vstd::prelude::*;

verus! {

/// The admin replaces the list of private buyers. This is for private buyers
/// only; for the rest see [`update_config_step`].
pub open spec fn update_allowed_buyers_step(
    pre: StoreView,
    sender: Seq<char>,
    allowed: Seq<Seq<char>>,
) -> Step {
    if pre.config is None {
        Step::fail(pre, missing_row("config"@))
    } else if !pre.config->0.use_private_buyers {
        Step::fail(pre, ContractErrorView::InvalidVisibilityConfig)
    } else {
        update_config_step(pre, sender, ConfigView { allowed_buyers: allowed, ..pre.config->0 })
    }
}

/// Runs the admin's replacement of the list of private buyers; see
/// [`update_allowed_buyers_step`].
pub fn execute_update_allowed_buyers(
    store: &mut Store,
    info: MessageInfo,
    allowed_buyers: Vec<String>,
) -> (r: Result<Response, ContractError>)
    ensures
        update_allowed_buyers_step(old(store)@, info.sender@, allowed_buyers.deep_view()).describes(
            final(store)@,
            r,
        ),
{
    let mut updated_config = match &store.config {
        None => {
            return Err(missing("config"));
        },
        Some(config) => config.clone(),
    };
    if !updated_config.use_private_buyers {
        return Err(ContractError::InvalidVisibilityConfig);
    }
    updated_config.allowed_buyers = allowed_buyers;
    update_config_as_admin(store, info, updated_config)
}

} // verus!
