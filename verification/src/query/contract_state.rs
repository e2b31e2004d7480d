use crate::error::{result_view, ContractError, ContractErrorView};
use crate::msg::{GetContractStateResponse, GetContractStateResponseView};
use crate::storage::state_store::{
    clone_bids, missing, missing_row, Store, StoreView,
};
use crate::version_info::{get_version_info, stored_version};
use vstd::prelude::*;

verus! {

/// The snapshot of `store`: every row as it stands. The bids, the
/// configuration and the version marker must have been written.
pub open spec fn snapshot(store: StoreView) -> Result<
    GetContractStateResponseView,
    ContractErrorView,
> {
    if store.bid_list is None {
        Err(missing_row("buyer_list"@))
    } else if store.config is None {
        Err(missing_row("config"@))
    } else if store.version_info is None {
        Err(stored_version(store)->Err_0)
    } else {
        Ok(
            GetContractStateResponseView {
                bids: store.bid_list->0.bids,
                seller: store.seller,
                config: store.config->0,
                settlement_data: store.settlement_data,
                token_data: store.token_data,
                version_info: store.version_info->0,
                buyer: store.buyer,
            },
        )
    }
}

/// Reads the whole state; see [`snapshot`].
pub fn query_contract_state(store: &Store) -> (r: Result<GetContractStateResponse, ContractError>)
    ensures
        result_view(r) == snapshot(store@),
{
    let bids = match &store.bid_list {
        None => {
            return Err(missing("buyer_list"));
        },
        Some(list) => clone_bids(&list.bids),
    };
    let seller = match &store.seller {
        None => None,
        Some(seller) => Some(seller.clone()),
    };
    let config = match &store.config {
        None => {
            return Err(missing("config"));
        },
        Some(config) => config.clone(),
    };
    let settlement_data = match &store.settlement_data {
        None => None,
        Some(data) => Some(data.clone()),
    };
    let version_info = match get_version_info(store) {
        Err(e) => {
            return Err(e);
        },
        Ok(info) => info,
    };
    let buyer = match &store.buyer {
        None => None,
        Some(buyer) => Some(buyer.clone()),
    };
    let token_data = match &store.token_data {
        None => None,
        Some(data) => Some(data.clone()),
    };
    Ok(
        GetContractStateResponse {
            bids,
            seller,
            config,
            settlement_data,
            token_data,
            version_info,
            buyer,
        },
    )
}

} // verus!
