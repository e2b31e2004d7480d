use forward_market_contract::contract::execute;
use forward_market_contract::error::ContractError;
use forward_market_contract::msg::ExecuteMsg::AddSeller;
use forward_market_contract::query::contract_state::query_contract_state;
use forward_market_contract::registry::Registry;
use forward_market_contract::response::{BlockInfo, ContractInfo, Env, MessageInfo};
use forward_market_contract::storage::state_store::{
    save_bid_list_state, save_contract_config, save_seller_state, Bid, BidList, Config, FaceValue,
    Seller, Store,
};
use forward_market_contract::version_info::{set_version_info, VersionInfoV1};

fn mock_info(sender: &str) -> MessageInfo {
    MessageInfo { sender: sender.to_string() }
}

fn mock_env() -> Env {
    let env = cosmwasm_std::testing::mock_env();
    Env {
        block: BlockInfo { height: env.block.height },
        contract: ContractInfo { address: env.contract.address.to_string() },
    }
}

fn mock_version() -> VersionInfoV1 {
    VersionInfoV1 { definition: "mock".to_string(), version: "0.0.0".to_string() }
}

fn terms(min: u128, max: u128, tick: u128) -> Option<FaceValue> {
    Some(FaceValue {
        token_denom: "test.forward.market.token".to_string(),
        max_face_value_cents: max,
        min_face_value_cents: min,
        tick_size: tick,
    })
}

#[test]
fn execute_add_seller_tests_add_seller_to_public_forward_market() {
    let mut storage = Store::new();
    let registry = Registry::new();
    let info = mock_info("private-seller-0");
    let env = mock_env();
    let dealer_address = "dealer_address";
    let buyer_address = "buyer_address";
    let accepted_value_cents: u128 = 400000000;
    let add_seller_msg = AddSeller {
        accepted_value_cents: Some(accepted_value_cents),
        offer_hash: "mock-offer-hash".to_string(),
    };
    let tick_size: u128 = 1000;

    save_contract_config(
        &mut storage,
        &Config {
            use_private_sellers: false,
            use_private_buyers: false,
            allowed_sellers: vec![],
            allowed_buyers: vec![],
            dealers: vec![dealer_address.to_string()],
            is_disabled: false,
            max_bid_count: 3,
            contract_admin: "contract-admin".to_string(),
            face_value: terms(100000000, 500000000, tick_size),
        },
    )
    .unwrap();
    set_version_info(&mut storage, &mock_version()).unwrap();
    save_bid_list_state(
        &mut storage,
        &BidList {
            bids: vec![Bid {
                buyer_address: buyer_address.to_string(),
                agreement_terms_hash: "".to_string(),
            }],
        },
    )
    .unwrap();

    match execute(&mut storage, &registry, env, info, add_seller_msg) {
        Ok(_) => {
            assert_eq!(
                query_contract_state(&storage).unwrap().seller.unwrap(),
                Seller {
                    seller_address: "private-seller-0".to_string(),
                    accepted_value_cents: Some(accepted_value_cents),
                    pool_denoms: vec![],
                    offer_hash: "mock-offer-hash".to_string(),
                }
            );
        }
        Err(error) => {
            panic!("failed to add seller: {:?}", error)
        }
    }
}

#[test]
fn add_seller_with_invalid_accepted_value() {
    let mut storage = Store::new();
    let registry = Registry::new();
    let contract_admin = "contract_admin";
    let info = mock_info(contract_admin);
    let env = mock_env();
    let add_seller_msg = AddSeller {
        accepted_value_cents: Some(900000000),
        offer_hash: "mock-offer-hash".to_string(),
    };

    save_contract_config(
        &mut storage,
        &Config {
            use_private_sellers: false,
            use_private_buyers: false,
            allowed_sellers: vec![],
            allowed_buyers: vec![],
            dealers: vec!["dealer-address".to_string()],
            is_disabled: false,
            max_bid_count: 10,
            contract_admin: contract_admin.to_string(),
            face_value: terms(400000000, 500000000, 1000),
        },
    )
    .unwrap();

    match execute(&mut storage, &registry, env, info, add_seller_msg) {
        Ok(_) => {
            panic!("failure to return an error when using an accepted value greater than the face value")
        }
        Err(error) => match error {
            ContractError::AcceptedValueExceedsMaxFaceValue => {}
            _ => {
                panic!("Unexpected error returned when using an accepted value greater than the face value")
            }
        },
    }
}

#[test]
fn execute_add_seller_tests_add_duplicate_seller() {
    let mut storage = Store::new();
    let registry = Registry::new();
    let contract_admin = "contract_admin";
    let info = mock_info(contract_admin);
    let env = mock_env();
    save_contract_config(
        &mut storage,
        &Config {
            use_private_sellers: false,
            use_private_buyers: false,
            allowed_sellers: vec![],
            allowed_buyers: vec![],
            dealers: vec!["dealer-address".to_string()],
            is_disabled: false,
            max_bid_count: 2,
            contract_admin: contract_admin.to_string(),
            face_value: terms(300000, 500000000, 1000),
        },
    )
    .unwrap();
    save_seller_state(
        &mut storage,
        &Seller {
            seller_address: "existing_seller".to_string(),
            accepted_value_cents: Some(100000000),
            pool_denoms: vec![],
            offer_hash: "mock-offer-hash".to_string(),
        },
    )
    .unwrap();

    let add_seller_msg = AddSeller {
        accepted_value_cents: Some(200000000),
        offer_hash: "mock-offer-hash".to_string(),
    };
    match execute(&mut storage, &registry, env, info, add_seller_msg) {
        Ok(_) => {
            panic!("failed to return error when a duplicate seller was added")
        }
        Err(error) => match error {
            ContractError::SellerAlreadyExists => {}
            _ => {
                panic!("an unexpected error was returned when attempting to add a duplicate seller")
            }
        },
    }
}

#[test]
fn execute_add_seller_tests_add_seller_to_private_forward_market() {
    let mut storage = Store::new();
    let registry = Registry::new();
    let contract_admin = "contract_admin";
    let info = mock_info("private-seller-0");
    let env = mock_env();
    let buyer_address = "contract_buyer";
    let accepted_value_cents: u128 = 100000000;
    let dealer_address = "dealer-address";
    let add_seller_msg = AddSeller {
        accepted_value_cents: Some(accepted_value_cents),
        offer_hash: "mock-offer-hash".to_string(),
    };
    let tick_size: u128 = 1000;

    save_contract_config(
        &mut storage,
        &Config {
            use_private_sellers: true,
            use_private_buyers: true,
            allowed_sellers: vec!["private-seller-0".to_string()],
            allowed_buyers: vec![],
            dealers: vec![dealer_address.to_string()],
            is_disabled: false,
            max_bid_count: 2,
            contract_admin: contract_admin.to_string(),
            face_value: terms(200000, 1500000000, tick_size),
        },
    )
    .unwrap();
    set_version_info(&mut storage, &mock_version()).unwrap();
    save_bid_list_state(
        &mut storage,
        &BidList {
            bids: vec![Bid {
                buyer_address: buyer_address.to_string(),
                agreement_terms_hash: "".to_string(),
            }],
        },
    )
    .unwrap();

    match execute(&mut storage, &registry, env, info, add_seller_msg) {
        Ok(_) => {
            assert_eq!(
                query_contract_state(&storage).unwrap().seller.unwrap(),
                Seller {
                    seller_address: "private-seller-0".to_string(),
                    accepted_value_cents: Some(accepted_value_cents),
                    pool_denoms: vec![],
                    offer_hash: "mock-offer-hash".to_string(),
                }
            );
        }
        Err(error) => {
            panic!("failed to add seller: {:?}", error)
        }
    }
}

#[test]
fn execute_add_seller_tests_add_invalid_seller_to_private_forward_market() {
    let mut storage = Store::new();
    let registry = Registry::new();
    let contract_admin = "contract-admin";
    let info = mock_info(contract_admin);
    let env = mock_env();
    let add_seller_msg = AddSeller {
        accepted_value_cents: Some(100000000),
        offer_hash: "mock-offer-hash".to_string(),
    };

    save_contract_config(
        &mut storage,
        &Config {
            use_private_sellers: true,
            use_private_buyers: false,
            allowed_sellers: vec![],
            allowed_buyers: vec![],
            dealers: vec!["dealer-address".to_string()],
            is_disabled: false,
            max_bid_count: 5,
            contract_admin: contract_admin.to_string(),
            face_value: terms(300000000, 500000000, 1000),
        },
    )
    .unwrap();

    match execute(&mut storage, &registry, env, info, add_seller_msg) {
        Ok(_) => {
            panic!(
                "failed to return an error when adding a seller that is not in the allowed list of sellers for \
                    a private contract"
            )
        }
        Err(error) => match error {
            ContractError::UnauthorizedPrivateSeller => {}
            _ => {
                panic!(
                    "an unexpected error was returned when attempting to add an invalid seller to a private \
                        contract"
                )
            }
        },
    }
}

fn add_seller_with(value: Option<u128>, min: u128, max: u128, tick: u128) -> Result<Seller, ContractError> {
    let mut storage = Store::new();
    let registry = Registry::new();
    save_contract_config(
        &mut storage,
        &Config {
            use_private_sellers: false,
            use_private_buyers: false,
            allowed_sellers: vec![],
            allowed_buyers: vec![],
            dealers: vec!["dealer-address".to_string()],
            is_disabled: false,
            max_bid_count: 5,
            contract_admin: "contract-admin".to_string(),
            face_value: terms(min, max, tick),
        },
    )
    .unwrap();
    let msg = AddSeller { accepted_value_cents: value, offer_hash: "mock-offer-hash".to_string() };
    execute(&mut storage, &registry, mock_env(), mock_info("seller"), msg)?;
    Ok(storage.seller.unwrap())
}

#[test]
fn accepted_value_must_be_a_whole_number_of_ticks() {
    let seller = add_seller_with(Some(1_000_000), 1_000, 5_000_000, 1000).unwrap();
    assert_eq!(seller.accepted_value_cents, Some(1_000_000));
    assert_eq!(seller.accepted_value_cents.unwrap() / 1000, 1000);
    assert_eq!(
        add_seller_with(Some(1_000_050), 1_000, 5_000_000, 1000),
        Err(ContractError::InvalidTickSizeValueMatch)
    );
}

#[test]
fn accepted_value_is_checked_in_order() {
    assert_eq!(
        add_seller_with(None, 2_000, 4_000, 1000),
        Err(ContractError::AcceptedValueMustBePositive)
    );
    assert_eq!(
        add_seller_with(Some(0), 2_000, 4_000, 1000),
        Err(ContractError::AcceptedValueMustBePositive)
    );
    assert_eq!(
        add_seller_with(Some(1_500), 2_000, 4_000, 1000),
        Err(ContractError::AcceptedValueLessThanMinFaceValue)
    );
    assert_eq!(
        add_seller_with(Some(4_500), 2_000, 4_000, 1000),
        Err(ContractError::AcceptedValueExceedsMaxFaceValue)
    );
    assert_eq!(
        add_seller_with(Some(2_500), 2_000, 4_000, 1000),
        Err(ContractError::InvalidTickSizeValueMatch)
    );
    assert_eq!(
        add_seller_with(Some(3_000), 2_000, 4_000, 0),
        Err(ContractError::InvalidTickSizeValueMatch)
    );
    assert!(add_seller_with(Some(2_000), 2_000, 4_000, 1000).is_ok());
    assert!(add_seller_with(Some(4_000), 2_000, 4_000, 1000).is_ok());
}
