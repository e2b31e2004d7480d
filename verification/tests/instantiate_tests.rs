use cosmwasm_std::testing::MockApi;
use forward_market_contract::contract::instantiate;
use forward_market_contract::error::ContractError;
use forward_market_contract::msg::InstantiateContractMsg;
use forward_market_contract::query::contract_state::query_contract_state;
use forward_market_contract::registry::Registry;
use forward_market_contract::response::{Attribute, BlockInfo, ContractInfo, Env, MessageInfo};
use forward_market_contract::storage::state_store::{Config, FaceValue, Store};
use forward_market_contract::version_info::{
    get_version_info, VersionInfoV1, CRATE_NAME, PACKAGE_VERSION,
};

struct Api;

impl Api {
    fn addr_make(&self, input: &str) -> String {
        MockApi::default().addr_make(input).to_string()
    }
}

struct Deps {
    api: Api,
    storage: Store,
    registry: Registry,
}

fn mock_dependencies() -> Deps {
    Deps { api: Api, storage: Store::new(), registry: Registry::new() }
}

fn mock_env() -> Env {
    let env = cosmwasm_std::testing::mock_env();
    Env {
        block: BlockInfo { height: env.block.height },
        contract: ContractInfo { address: env.contract.address.to_string() },
    }
}

fn mock_version() -> VersionInfoV1 {
    VersionInfoV1 { definition: "mock".to_string(), version: "0.0.0".to_string() }
}

#[test]
fn instantiate_private_forward_market_contract() {
    let mut deps = mock_dependencies();
    let buyer_address = deps.api.addr_make("contract-buyer");
    let seller_address_0 = deps.api.addr_make("allowed-seller-0");
    let seller_address_1 = deps.api.addr_make("allowed-seller-1");
    let info = MessageInfo { sender: buyer_address.clone() };
    let env = mock_env();
    let instantiate_msg = InstantiateContractMsg {
        use_private_sellers: true,
        use_private_buyers: false,
        allowed_sellers: vec![
            seller_address_0.clone().to_string(),
            seller_address_1.clone().to_string(),
        ],
        allowed_buyers: vec![],
        dealers: vec!["dealer-address".to_string()],
        max_buyer_count: 1,
        face_value: None,
    };
    let init_response = instantiate(&mut deps.storage, env, info, instantiate_msg);
    match init_response {
        Ok(response) => {
            let expected_config_attributes = Config {
                use_private_sellers: true,
                use_private_buyers: false,
                allowed_sellers: vec![seller_address_0.clone(), seller_address_1.clone()],
                allowed_buyers: vec![],
                dealers: vec!["dealer-address".to_string()],
                is_disabled: false,
                max_bid_count: 1,
                contract_admin: buyer_address.clone(),
                face_value: None,
            };

            assert_eq!(response.attributes.len(), 1);
            assert_eq!(response.attributes[0].key(), "contract_config");
            assert_eq!(
                response.attributes[0],
                Attribute::ContractConfig(expected_config_attributes.clone())
            );
            assert_eq!(
                query_contract_state(&deps.storage).unwrap().config,
                expected_config_attributes
            );
            let expected_version_info = VersionInfoV1 {
                definition: CRATE_NAME.to_string(),
                version: PACKAGE_VERSION.to_string(),
            };
            assert_eq!(get_version_info(&deps.storage).unwrap(), expected_version_info);
            assert!(query_contract_state(&deps.storage).unwrap().bids.is_empty());
        }
        Err(error) => panic!("failed to initialize: {:?}", error),
    }
}

#[test]
fn instantiate_invalid_seller_config() {
    let mut deps = mock_dependencies();
    let buyer_address = deps.api.addr_make("contract-buyer");
    let info = MessageInfo { sender: buyer_address.clone() };
    let env = mock_env();
    let instantiate_msg = InstantiateContractMsg {
        use_private_sellers: false,
        use_private_buyers: false,
        allowed_sellers: vec![
            deps.api.addr_make("allowed-seller-0").to_string(),
            deps.api.addr_make("allowed-seller-1").to_string(),
        ],
        allowed_buyers: vec![],
        dealers: vec![deps.api.addr_make("dealer-address").to_string()],
        max_buyer_count: 1,
        face_value: None,
    };
    let init_response = instantiate(&mut deps.storage, env, info, instantiate_msg);
    match init_response {
        Ok(_) => {
            panic!("failed to detect error when allowed sellers are given but sellers are not private")
        }
        Err(error) => match error {
            ContractError::InvalidVisibilityConfig => {}
            _ => {
                panic!("unexpected error encountered when instantiating with an invalid seller list")
            }
        },
    }
    assert_eq!(deps.storage, Store::new());
}

fn msg(api: &Api) -> InstantiateContractMsg {
    InstantiateContractMsg {
        use_private_sellers: true,
        use_private_buyers: true,
        allowed_sellers: vec![api.addr_make("seller")],
        allowed_buyers: vec![api.addr_make("buyer")],
        dealers: vec![api.addr_make("dealer")],
        max_buyer_count: 2,
        face_value: Some(FaceValue {
            token_denom: "token".to_string(),
            min_face_value_cents: 1000,
            max_face_value_cents: 9000,
            tick_size: 1000,
        }),
    }
}

fn instantiate_with(change: fn(&mut InstantiateContractMsg)) -> Result<(), ContractError> {
    let mut deps = mock_dependencies();
    let mut message = msg(&deps.api);
    change(&mut message);
    let sender = deps.api.addr_make("admin");
    instantiate(&mut deps.storage, mock_env(), MessageInfo { sender }, message).map(|_| ())
}

#[test]
fn instantiate_checks_the_message() {
    assert_eq!(instantiate_with(|_| {}), Ok(()));
    assert_eq!(
        instantiate_with(|m| m.dealers = vec![]),
        Err(ContractError::InvalidEmptyDealerConfig)
    );
    assert_eq!(
        instantiate_with(|m| m.use_private_buyers = false),
        Err(ContractError::InvalidVisibilityConfig)
    );
    assert_eq!(
        instantiate_with(|m| {
            m.use_private_sellers = false;
            m.dealers = vec![];
        }),
        Err(ContractError::InvalidVisibilityConfig)
    );
    assert_eq!(
        instantiate_with(|m| {
            m.face_value.as_mut().unwrap().tick_size = 0;
            m.dealers = vec![];
        }),
        Err(ContractError::TickSizeMustBePositive)
    );
    assert_eq!(
        instantiate_with(|m| m.face_value.as_mut().unwrap().min_face_value_cents = 0),
        Err(ContractError::FaceValueMustBePositive)
    );
    assert_eq!(
        instantiate_with(|m| m.face_value.as_mut().unwrap().max_face_value_cents = 500),
        Err(ContractError::InvalidMaxFaceValue)
    );
    assert_eq!(
        instantiate_with(|m| m.face_value.as_mut().unwrap().max_face_value_cents = 9500),
        Err(ContractError::InvalidTickSizeValueMatch)
    );
}
