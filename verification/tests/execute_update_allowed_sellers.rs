use cosmwasm_std::testing::MockApi;
use forward_market_contract::contract::execute;
use forward_market_contract::error::ContractError;
use forward_market_contract::msg::ExecuteMsg::{UpdateAllowedBuyers, UpdateAllowedSellers};
use forward_market_contract::query::contract_state::query_contract_state;
use forward_market_contract::registry::Registry;
use forward_market_contract::response::{Attribute, BlockInfo, ContractInfo, Env, MessageInfo};
use forward_market_contract::storage::state_store::{
    save_bid_list_state, save_buyer_state, save_contract_config, save_seller_state, BidList,
    Buyer, Config, Seller, Store,
};
use forward_market_contract::version_info::{set_version_info, VersionInfoV1};

struct Api;

impl Api {
    fn addr_make(&self, input: &str) -> String {
        MockApi::default().addr_make(input).to_string()
    }
}

struct Deps {
    api: Api,
    storage: Store,
    registry: Registry,
}

fn mock_dependencies() -> Deps {
    Deps { api: Api, storage: Store::new(), registry: Registry::new() }
}

fn mock_env() -> Env {
    let env = cosmwasm_std::testing::mock_env();
    Env {
        block: BlockInfo { height: env.block.height },
        contract: ContractInfo { address: env.contract.address.to_string() },
    }
}

fn mock_version() -> VersionInfoV1 {
    VersionInfoV1 { definition: "mock".to_string(), version: "0.0.0".to_string() }
}

#[test]
fn update_allowed_sellers() {
    let mut deps = mock_dependencies();
    let buyer_address = deps.api.addr_make("contract-buyer");
    let info = MessageInfo { sender: buyer_address.clone() };
    let env = mock_env();
    let allowed_seller_0_addr = deps.api.addr_make("allowed-seller-0");
    let allowed_seller_1_addr = deps.api.addr_make("allowed-seller-1");
    save_contract_config(
        &mut deps.storage,
        &Config {
            use_private_sellers: true,
            use_private_buyers: false,
            allowed_sellers: vec![allowed_seller_0_addr],
            allowed_buyers: vec![],
            dealers: vec![deps.api.addr_make("dealer-address")],
            is_disabled: false,
            max_bid_count: 8,
            contract_admin: info.sender.clone(),
            face_value: None,
        },
    )
    .unwrap();
    set_version_info(&mut deps.storage, &mock_version()).unwrap();
    save_bid_list_state(&mut deps.storage, &BidList { bids: vec![] }).unwrap();

    let update_allowed_sellers =
        UpdateAllowedSellers { allowed_sellers: vec![allowed_seller_1_addr.to_string()] };
    match execute(&mut deps.storage, &deps.registry, env, info.clone(), update_allowed_sellers) {
        Ok(response) => {
            let expected_config_attributes = Config {
                use_private_sellers: true,
                use_private_buyers: false,
                allowed_sellers: vec![allowed_seller_1_addr],
                allowed_buyers: vec![],
                dealers: vec![deps.api.addr_make("dealer-address")],
                is_disabled: false,
                max_bid_count: 8,
                contract_admin: info.sender.clone(),
                face_value: None,
            };
            assert_eq!(response.attributes.len(), 1);
            assert_eq!(response.attributes[0].key(), "contract_config");
            assert_eq!(
                response.attributes[0],
                Attribute::ContractConfig(expected_config_attributes.clone())
            );
            assert_eq!(
                query_contract_state(&deps.storage).unwrap().config,
                expected_config_attributes
            );
        }
        Err(error) => {
            panic!("failed to update allowed sellers: {:?}", error)
        }
    }
}

#[test]
fn update_allowed_sellers_not_private() {
    let mut deps = mock_dependencies();
    let buyer_address = deps.api.addr_make("contract-buyer");
    let info = MessageInfo { sender: buyer_address.clone() };
    let env = mock_env();
    save_contract_config(
        &mut deps.storage,
        &Config {
            use_private_sellers: false,
            use_private_buyers: false,
            allowed_sellers: vec![],
            allowed_buyers: vec![],
            dealers: vec![deps.api.addr_make("dealer-address")],
            is_disabled: false,
            max_bid_count: 5,
            contract_admin: info.sender.clone(),
            face_value: None,
        },
    )
    .unwrap();

    let update_allowed_sellers = UpdateAllowedSellers {
        allowed_sellers: vec![deps.api.addr_make("allowed-seller-2").to_string()],
    };
    match execute(&mut deps.storage, &deps.registry, env, info, update_allowed_sellers) {
        Ok(_) => {
            panic!(
                "failed to detect an incorrect configuration when trying to update the \
                    allowed sellers on a non-private contract"
            )
        }
        Err(error) => match error {
            ContractError::InvalidVisibilityConfig => {}
            _ => {
                panic!(
                    "an unexpected error was returned when trying to update the allowed \
                        sellers on a non-private contract"
                )
            }
        },
    }
}

fn private_config(api: &Api) -> Config {
    Config {
        use_private_sellers: true,
        use_private_buyers: true,
        allowed_sellers: vec![],
        allowed_buyers: vec![],
        dealers: vec![api.addr_make("dealer-address")],
        is_disabled: false,
        max_bid_count: 5,
        contract_admin: api.addr_make("admin"),
        face_value: None,
    }
}

#[test]
fn update_allowed_buyers_replaces_the_list() {
    let mut deps = mock_dependencies();
    let admin = deps.api.addr_make("admin");
    save_contract_config(&mut deps.storage, &private_config(&deps.api)).unwrap();
    let listed = vec![deps.api.addr_make("buyer-0"), deps.api.addr_make("buyer-1")];
    execute(
        &mut deps.storage,
        &deps.registry,
        mock_env(),
        MessageInfo { sender: admin },
        UpdateAllowedBuyers { allowed_buyers: listed.clone() },
    )
    .unwrap();
    assert_eq!(deps.storage.config.unwrap().allowed_buyers, listed);
}

#[test]
fn update_allowed_lists_is_for_the_admin_before_the_deal() {
    let mut deps = mock_dependencies();
    let admin = deps.api.addr_make("admin");
    save_contract_config(&mut deps.storage, &private_config(&deps.api)).unwrap();
    let by_other = execute(
        &mut deps.storage,
        &deps.registry,
        mock_env(),
        MessageInfo { sender: deps.api.addr_make("other") },
        UpdateAllowedBuyers { allowed_buyers: vec![] },
    );
    assert_eq!(by_other, Err(ContractError::UnauthorizedConfigUpdate));

    save_seller_state(
        &mut deps.storage,
        &Seller {
            seller_address: deps.api.addr_make("seller"),
            accepted_value_cents: None,
            pool_denoms: vec![],
            offer_hash: "hash".to_string(),
        },
    )
    .unwrap();
    execute(
        &mut deps.storage,
        &deps.registry,
        mock_env(),
        MessageInfo { sender: admin.clone() },
        UpdateAllowedSellers { allowed_sellers: vec![deps.api.addr_make("seller")] },
    )
    .unwrap();

    save_buyer_state(
        &mut deps.storage,
        &Buyer {
            buyer_address: deps.api.addr_make("buyer"),
            buyer_has_accepted_pools: false,
            agreement_terms_hash: "hash".to_string(),
        },
    )
    .unwrap();
    let frozen = execute(
        &mut deps.storage,
        &deps.registry,
        mock_env(),
        MessageInfo { sender: admin },
        UpdateAllowedSellers { allowed_sellers: vec![] },
    );
    assert_eq!(frozen, Err(ContractError::IllegalConfigUpdate));
    assert_eq!(
        deps.storage.config.unwrap().allowed_sellers,
        vec![deps.api.addr_make("seller")]
    );
}
