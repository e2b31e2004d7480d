use crate::error::{ContractError, ContractErrorView};
use crate::response::{MessageInfo, Response};
use crate::storage::state_store::{
    missing, missing_row, ConfigView, FaceValue, FaceValueView, Store, StoreView,
};
use crate::util::helpers::{
    face_value_check, update_config_as_admin, update_config_step, validate_face_values, Step,
};
use vstd::prelude::*;

verus! {

/// The admin replaces the bounds of the face-value terms. The new bounds must
/// be valid, and there must be terms whose token denomination they keep; for
/// the rest see [`update_config_step`].
pub open spec fn update_face_value_cents_step(
    pre: StoreView,
    sender: Seq<char>,
    min: u128,
    max: u128,
    tick: u128,
) -> Step {
    if face_value_check(min, max, tick) is Err {
        Step::fail(pre, face_value_check(min, max, tick)->Err_0)
    } else if pre.config is None {
        Step::fail(pre, missing_row("config"@))
    } else if pre.config->0.face_value is None {
        Step::fail(pre, ContractErrorView::FaceValueNotConfigured)
    } else {
        let terms = FaceValueView {
            token_denom: pre.config->0.face_value->0.token_denom,
            min_face_value_cents: min,
            max_face_value_cents: max,
            tick_size: tick,
        };
        update_config_step(pre, sender, ConfigView { face_value: Some(terms), ..pre.config->0 })
    }
}

/// Runs the admin's replacement of the face-value bounds; see
/// [`update_face_value_cents_step`].
pub fn execute_update_face_value_cents(
    store: &mut Store,
    info: MessageInfo,
    new_min_face_value_cents: u128,
    new_max_face_value_cents: u128,
    new_tick_size: u128,
) -> (r: Result<Response, ContractError>)
    ensures
        update_face_value_cents_step(
            old(store)@,
            info.sender@,
            new_min_face_value_cents,
            new_max_face_value_cents,
            new_tick_size,
        ).describes(final(store)@, r),
{
    match validate_face_values(new_min_face_value_cents, new_max_face_value_cents, new_tick_size) {
        Err(e) => {
            return Err(e);
        },
        Ok(_) => {},
    }
    let mut updated_config = match &store.config {
        None => {
            return Err(missing("config"));
        },
        Some(config) => config.clone(),
    };
    let token_denom = match &updated_config.face_value {
        None => {
            return Err(ContractError::FaceValueNotConfigured);
        },
        Some(terms) => terms.token_denom.clone(),
    };
    updated_config.face_value = Some(
        FaceValue {
            token_denom,
            min_face_value_cents: new_min_face_value_cents,
            max_face_value_cents: new_max_face_value_cents,
            tick_size: new_tick_size,
        },
    );
    update_config_as_admin(store, info, updated_config)
}

} // verus!
