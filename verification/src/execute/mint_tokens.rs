use crate::error::{ContractError, ContractErrorView};
use crate::response::{Env, MessageInfo, Response, ResponseView};
use crate::storage::state_store::{missing, missing_row, Store, StoreView, TokenData, TokenDataView};
use crate::util::helpers::Step;
use vstd::prelude::*;

verus! {

/// The admin records the one-time mint of `count` settlement tokens of
/// `denom`. Only the admin may, only once, and `count` must be positive.
/// Nothing is asked of the registry before a bid is accepted.
pub open spec fn mint_tokens_step(
    pre: StoreView,
    sender: Seq<char>,
    count: u128,
    denom: Seq<char>,
) -> Step {
    if pre.config is None {
        Step::fail(pre, missing_row("config"@))
    } else if !pre.config->0.is_admin(sender) {
        Step::fail(pre, ContractErrorView::UnauthorizedToMint)
    } else if pre.token_data is Some {
        Step::fail(
            pre,
            ContractErrorView::TokensAlreadyMinted { token_denom: pre.token_data->0.token_denom },
        )
    } else if count == 0 {
        Step::fail(pre, ContractErrorView::InvalidTokenCount)
    } else {
        Step::done(
            StoreView {
                token_data: Some(TokenDataView { token_denom: denom, token_count: count }),
                ..pre
            },
            ResponseView { messages: seq![], attributes: seq![] },
        )
    }
}

/// Runs the admin's record of the mint; see [`mint_tokens_step`].
pub fn execute_mint_tokens(
    store: &mut Store,
    env: Env,
    info: MessageInfo,
    token_count: u128,
    token_denom: String,
) -> (r: Result<Response, ContractError>)
    ensures
        mint_tokens_step(old(store)@, info.sender@, token_count, token_denom@).describes(
            final(store)@,
            r,
        ),
{
    match &store.config {
        None => {
            return Err(missing("config"));
        },
        Some(config) => {
            if info.sender != config.contract_admin {
                return Err(ContractError::UnauthorizedToMint);
            }
        },
    }
    match &store.token_data {
        Some(data) => {
            return Err(ContractError::TokensAlreadyMinted { token_denom: data.token_denom.clone() });
        },
        None => {},
    }
    if token_count == 0 {
        return Err(ContractError::InvalidTokenCount);
    }
    store.token_data = Some(TokenData { token_denom, token_count });
    let response = Response::new();
    proof {
        let step = mint_tokens_step(old(store)@, info.sender@, token_count, token_denom@);
        assert(response@.messages =~= step.result->Ok_0.messages);
        assert(response@.attributes =~= step.result->Ok_0.attributes);
    }
    Ok(response)
}

} // verus!
