use crate::error::{ContractError, ContractErrorView};
use crate::msg::{InstantiateContractMsg, InstantiateContractMsgView};
use crate::response::{Attribute, AttributeView, Env, MessageInfo, Response, ResponseView};
use crate::storage::state_store::{BidList, BidListView, Config, ConfigView, Store, StoreView};
use crate::util::helpers::{face_value_check, validate_face_values, Step};
use crate::version_info::{VersionInfoV1, VersionInfoV1View, CRATE_NAME, PACKAGE_VERSION};
use vstd::prelude::*;

verus! {

/// The configuration that `msg` sets up for the admin `sender`: enabled.
pub open spec fn initial_config(sender: Seq<char>, msg: InstantiateContractMsgView) -> ConfigView {
    ConfigView {
        use_private_sellers: msg.use_private_sellers,
        use_private_buyers: msg.use_private_buyers,
        allowed_sellers: msg.allowed_sellers,
        allowed_buyers: msg.allowed_buyers,
        max_bid_count: msg.max_buyer_count,
        dealers: msg.dealers,
        is_disabled: false,
        contract_admin: sender,
        face_value: msg.face_value,
    }
}

/// The version marker that this code writes.
pub open spec fn current_version() -> VersionInfoV1View {
    VersionInfoV1View { definition: CRATE_NAME@, version: PACKAGE_VERSION@ }
}

/// Setting an instance up. Face-value terms, where given, must be valid; an
/// allow-list must be empty unless its side is private; and there must be a
/// dealer. The caller becomes the admin, no bid stands, and the version of
/// this code is recorded.
pub open spec fn instantiate_step(
    pre: StoreView,
    sender: Seq<char>,
    msg: InstantiateContractMsgView,
) -> Step {
    if msg.face_value is Some && face_value_check(
        msg.face_value->0.min_face_value_cents,
        msg.face_value->0.max_face_value_cents,
        msg.face_value->0.tick_size,
    ) is Err {
        Step::fail(
            pre,
            face_value_check(
                msg.face_value->0.min_face_value_cents,
                msg.face_value->0.max_face_value_cents,
                msg.face_value->0.tick_size,
            )->Err_0,
        )
    } else if !msg.use_private_sellers && msg.allowed_sellers.len() != 0 {
        Step::fail(pre, ContractErrorView::InvalidVisibilityConfig)
    } else if !msg.use_private_buyers && msg.allowed_buyers.len() != 0 {
        Step::fail(pre, ContractErrorView::InvalidVisibilityConfig)
    } else if msg.dealers.len() == 0 {
        Step::fail(pre, ContractErrorView::InvalidEmptyDealerConfig)
    } else {
        Step::done(
            StoreView {
                config: Some(initial_config(sender, msg)),
                bid_list: Some(BidListView { bids: seq![] }),
                version_info: Some(current_version()),
                ..pre
            },
            ResponseView::reporting(
                seq![],
                AttributeView::ContractConfig(initial_config(sender, msg)),
            ),
        )
    }
}

/// Sets an instance up in `store`; see [`instantiate_step`].
pub fn instantiate_contract(
    store: &mut Store,
    _env: Env,
    info: MessageInfo,
    msg: InstantiateContractMsg,
) -> (r: Result<Response, ContractError>)
    ensures
        instantiate_step(old(store)@, info.sender@, msg@).describes(final(store)@, r),
{
    match &msg.face_value {
        None => {},
        Some(terms) => {
            match validate_face_values(
                terms.min_face_value_cents,
                terms.max_face_value_cents,
                terms.tick_size,
            ) {
                Err(e) => {
                    return Err(e);
                },
                Ok(_) => {},
            }
        },
    }
    if !msg.use_private_sellers && msg.allowed_sellers.len() != 0 {
        return Err(ContractError::InvalidVisibilityConfig);
    }
    if !msg.use_private_buyers && msg.allowed_buyers.len() != 0 {
        return Err(ContractError::InvalidVisibilityConfig);
    }
    if msg.dealers.len() == 0 {
        return Err(ContractError::InvalidEmptyDealerConfig);
    }
    let config = Config {
        use_private_sellers: msg.use_private_sellers,
        use_private_buyers: msg.use_private_buyers,
        allowed_sellers: msg.allowed_sellers,
        allowed_buyers: msg.allowed_buyers,
        max_bid_count: msg.max_buyer_count,
        dealers: msg.dealers,
        is_disabled: false,
        contract_admin: info.sender,
        face_value: msg.face_value,
    };
    let reported = config.clone();
    store.config = Some(config);
    let bids = BidList { bids: Vec::new() };
    assert(bids@.bids =~= seq![]);
    store.bid_list = Some(bids);
    store.version_info = Some(
        VersionInfoV1 { version: PACKAGE_VERSION.to_owned(), definition: CRATE_NAME.to_owned() },
    );
    let response = Response::new().add_attribute(Attribute::ContractConfig(reported));
    proof {
        let step = instantiate_step(old(store)@, info.sender@, msg@);
        assert(response@.messages =~= step.result->Ok_0.messages);
        assert(response@.attributes =~= step.result->Ok_0.attributes);
    }
    Ok(response)
}

} // verus!
