use cosmwasm_std::testing::MockApi;
use forward_market_contract::contract::execute;
use forward_market_contract::error::ContractError;
use forward_market_contract::msg::ExecuteMsg::{
    AcceptFinalizedPools, AddSeller, ContractDisable, DealerConfirm, FinalizePools,
    RescindFinalizedPools, UpdateAllowedSellers,
};
use forward_market_contract::registry::{
    Balance, BaseAccount, Coin, Holding, Marker, MarkerAccount, MarkerAnswer, MarkerMsg, Registry,
};
use forward_market_contract::response::{BlockInfo, ContractInfo, Env, MessageInfo};
use forward_market_contract::storage::state_store::{
    retrieve_optional_settlement_data_state, save_bid_list_state, save_buyer_state,
    save_contract_config, save_seller_state, save_settlement_data_state, save_token_data_state,
    Bid, BidList, Buyer, Config, Seller, SettlementData, Store, TokenData,
};
use forward_market_contract::version_info::VersionInfoV1;

struct Api;

impl Api {
    fn addr_make(&self, input: &str) -> String {
        MockApi::default().addr_make(input).to_string()
    }
}

struct Deps {
    api: Api,
    storage: Store,
    registry: Registry,
}

fn mock_dependencies() -> Deps {
    Deps { api: Api, storage: Store::new(), registry: Registry::new() }
}

fn mock_env() -> Env {
    let env = cosmwasm_std::testing::mock_env();
    Env {
        block: BlockInfo { height: env.block.height },
        contract: ContractInfo { address: env.contract.address.to_string() },
    }
}

fn mock_version() -> VersionInfoV1 {
    VersionInfoV1 { definition: "mock".to_string(), version: "0.0.0".to_string() }
}

fn config(api: &Api, allowed_seller: &str, dealer: String, max_bid_count: i32) -> Config {
    Config {
        use_private_sellers: true,
        use_private_buyers: false,
        allowed_sellers: vec![api.addr_make(allowed_seller)],
        allowed_buyers: vec![],
        dealers: vec![dealer],
        is_disabled: false,
        max_bid_count,
        contract_admin: api.addr_make("contract-admin"),
        face_value: None,
    }
}

fn settled_setup(deps: &mut Deps, seller_address: &String, buyer_address: &String, pool_denom: &str) {
    save_bid_list_state(
        &mut deps.storage,
        &BidList {
            bids: vec![Bid {
                buyer_address: buyer_address.clone(),
                agreement_terms_hash: "".to_string(),
            }],
        },
    )
    .unwrap();
    save_seller_state(
        &mut deps.storage,
        &Seller {
            seller_address: seller_address.clone(),
            accepted_value_cents: None,
            pool_denoms: vec![pool_denom.into()],
            offer_hash: "mock-offer-hash".to_string(),
        },
    )
    .unwrap();
    save_buyer_state(
        &mut deps.storage,
        &Buyer {
            buyer_address: buyer_address.clone(),
            buyer_has_accepted_pools: true,
            agreement_terms_hash: "".to_string(),
        },
    )
    .unwrap();
    save_token_data_state(
        &mut deps.storage,
        &TokenData { token_denom: "test.token.fm".to_string(), token_count: 10 },
    )
    .unwrap();
}

fn registry(api: &Api) -> Registry {
    Registry {
        markers: vec![Marker {
            id: "test.token.fm".to_string(),
            answer: MarkerAnswer::Account(MarkerAccount {
                base_account: Some(BaseAccount { address: api.addr_make("base_addr") }),
                denom: "test.token.fm".to_string(),
            }),
        }],
        holdings: vec![Holding {
            denom: "test.token.asset.pool.0".to_string(),
            balances: Ok(vec![Balance {
                address: api.addr_make("seller_address"),
                coins: vec![Coin {
                    denom: "test.token.asset.pool.0".to_string(),
                    amount: "1".to_string(),
                }],
            }]),
        }],
    }
}

#[test]
fn execute_dealer_confirm() {
    let mut deps = mock_dependencies();
    let dealer_address = deps.api.addr_make("dealer-address");
    let seller_address = deps.api.addr_make("allowed-seller-0");
    let buyer_address = deps.api.addr_make("contract_buyer");
    let pool_denom = "test.token.asset.pool.0";
    let info = MessageInfo { sender: dealer_address.clone() };
    let env = mock_env();
    let mut expected_config = config(&deps.api, "allowed-seller-0", dealer_address.clone(), 3);
    expected_config.contract_admin = deps.api.addr_make("contract_admin");
    save_contract_config(&mut deps.storage, &expected_config).unwrap();
    settled_setup(&mut deps, &seller_address, &buyer_address, pool_denom);
    deps.registry = registry(&deps.api);

    match execute(&mut deps.storage, &deps.registry, env.clone(), info, DealerConfirm {}) {
        Ok(response) => {
            assert_eq!(
                response.messages[0],
                MarkerMsg::Transfer {
                    amount: Coin { denom: pool_denom.to_string(), amount: "1".to_string() },
                    administrator: env.contract.address.to_string(),
                    from_address: env.contract.address.to_string(),
                    to_address: deps.api.addr_make("base_addr").to_string(),
                }
            );
            assert_eq!(
                response.messages[1],
                MarkerMsg::DeleteAccess {
                    denom: "test.token.fm".to_string(),
                    administrator: env.contract.address.to_string(),
                    removed_address: env.contract.address.to_string(),
                }
            );
            assert_eq!(response.messages.len(), 2);
            assert!(response.attributes.is_empty());

            let expected_settlement_data =
                SettlementData { block_height: 12345, settling_dealer: dealer_address.clone() };
            assert_eq!(
                expected_settlement_data,
                retrieve_optional_settlement_data_state(&deps.storage).unwrap().unwrap()
            )
        }
        Err(error) => {
            panic!("failed to confirm the transaction as the seller: {:?}", error)
        }
    }
}

#[test]
fn execute_seller_confirm_invalid_seller() {
    let mut deps = mock_dependencies();
    let dealer_address = deps.api.addr_make("dealer-address");
    let seller_address = deps.api.addr_make("allowed-seller-0");
    let buyer_address = deps.api.addr_make("contract-buyer");
    let pool_denom = "test.token.asset.pool.0";
    let info = MessageInfo { sender: dealer_address.clone() };
    let env = mock_env();
    save_contract_config(
        &mut deps.storage,
        &config(&deps.api, "different-seller", dealer_address.clone(), 2),
    )
    .unwrap();
    settled_setup(&mut deps, &seller_address, &buyer_address, pool_denom);

    match execute(&mut deps.storage, &deps.registry, env.clone(), info, DealerConfirm {}) {
        Ok(_) => {
            panic!(
                "failed to return an error when an invalid seller state (seller is not \
                    included in allowed sellers) was encountered"
            )
        }
        Err(error) => match error {
            ContractError::UnauthorizedPrivateSeller => {}
            _ => {
                panic!(
                    "an unexpected error was returned when an invalid seller state (seller \
                            is not included in allowed sellers) was encountered"
                )
            }
        },
    }
}

#[test]
fn execute_seller_confirm_unauthorized_dealer() {
    let mut deps = mock_dependencies();
    let dealer_address = deps.api.addr_make("dealer-address");
    let seller_address = deps.api.addr_make("allowed-seller-0");
    let buyer_address = deps.api.addr_make("contract_buyer");
    let pool_denom = "test.token.asset.pool.0";
    let info = MessageInfo { sender: deps.api.addr_make("not-the-dealer") };
    let env = mock_env();
    save_contract_config(
        &mut deps.storage,
        &config(&deps.api, "different_seller", dealer_address.clone(), 5),
    )
    .unwrap();
    save_bid_list_state(
        &mut deps.storage,
        &BidList {
            bids: vec![Bid {
                buyer_address: buyer_address.clone(),
                agreement_terms_hash: "".to_string(),
            }],
        },
    )
    .unwrap();
    save_seller_state(
        &mut deps.storage,
        &Seller {
            seller_address: seller_address.clone(),
            accepted_value_cents: None,
            pool_denoms: vec![pool_denom.into()],
            offer_hash: "mock-offer-hash".to_string(),
        },
    )
    .unwrap();

    match execute(&mut deps.storage, &deps.registry, env.clone(), info, DealerConfirm {}) {
        Ok(_) => {
            panic!("failed to return an error when an unauthorized seller attempted to confirm the contract")
        }
        Err(error) => match error {
            ContractError::IllegalConfirmationRequest => {}
            _ => {
                panic!(
                    "an unexpected error was returned when an unauthorized seller attempted to confirm the \
                            contract"
                )
            }
        },
    }
}

#[test]
fn disallow_all_executions_after_settlement() {
    let mut deps = mock_dependencies();
    let dealer_address = deps.api.addr_make("dealer-address");
    let info = MessageInfo { sender: deps.api.addr_make("") };
    let env = mock_env();
    save_contract_config(
        &mut deps.storage,
        &Config {
            use_private_sellers: false,
            use_private_buyers: false,
            allowed_sellers: vec![],
            allowed_buyers: vec![],
            dealers: vec![dealer_address.clone()],
            is_disabled: false,
            max_bid_count: 50,
            contract_admin: deps.api.addr_make("contract-admin"),
            face_value: None,
        },
    )
    .unwrap();
    save_bid_list_state(
        &mut deps.storage,
        &BidList {
            bids: vec![Bid {
                buyer_address: deps.api.addr_make("buyer-address"),
                agreement_terms_hash: "".to_string(),
            }],
        },
    )
    .unwrap();
    save_settlement_data_state(
        &mut deps.storage,
        &SettlementData { block_height: 1, settling_dealer: dealer_address.clone() },
    )
    .unwrap();
    [
        ContractDisable {},
        AddSeller { accepted_value_cents: None, offer_hash: "mock-offer-hash".to_string() },
        FinalizePools { pool_denoms: vec![] },
        DealerConfirm {},
        UpdateAllowedSellers { allowed_sellers: vec![] },
        AcceptFinalizedPools { offer_hash: "".to_string() },
        RescindFinalizedPools {},
    ]
    .into_iter()
    .for_each(|command| -> () {
        match execute(&mut deps.storage, &deps.registry, env.clone(), info.clone(), command) {
            Ok(_) => {
                panic!(
                    "Failed to detect error when attempting to execute against a \
                    disabled contract"
                )
            }
            Err(error) => match error {
                ContractError::IllegalContractExecution => {}
                _ => {
                    panic!(
                        "Unexpected error encountered when attempting to execute \
                            against a disabled contract"
                    )
                }
            },
        }
    });
}

#[test]
fn dealer_confirm_needs_finalized_and_accepted() {
    let mut deps = mock_dependencies();
    let dealer_address = deps.api.addr_make("dealer-address");
    let seller_address = deps.api.addr_make("allowed-seller-0");
    let buyer_address = deps.api.addr_make("contract_buyer");
    save_contract_config(
        &mut deps.storage,
        &config(&deps.api, "allowed-seller-0", dealer_address.clone(), 3),
    )
    .unwrap();
    settled_setup(&mut deps, &seller_address, &buyer_address, "test.token.asset.pool.0");
    deps.registry = registry(&deps.api);
    let mut buyer = deps.storage.buyer.clone().unwrap();
    buyer.buyer_has_accepted_pools = false;
    save_buyer_state(&mut deps.storage, &buyer).unwrap();
    let result = execute(
        &mut deps.storage,
        &deps.registry,
        mock_env(),
        MessageInfo { sender: dealer_address },
        DealerConfirm {},
    );
    assert_eq!(result, Err(ContractError::InvalidConfirmationRequest));
    assert_eq!(deps.storage.settlement_data, None);
}

#[test]
fn dealer_confirm_needs_a_base_account() {
    for (answer, expected) in [
        (
            MarkerAnswer::Account(MarkerAccount {
                base_account: None,
                denom: "test.token.fm".to_string(),
            }),
            ContractError::MissingMarkerBaseAccount { denom: "test.token.fm".to_string() },
        ),
        (MarkerAnswer::Absent, ContractError::Std("no marker found for id".to_string())),
        (
            MarkerAnswer::Unreadable,
            ContractError::Std("unable to type-cast marker account".to_string()),
        ),
        (MarkerAnswer::Failed("timeout".to_string()), ContractError::Std("timeout".to_string())),
    ] {
        let mut deps = mock_dependencies();
        let dealer_address = deps.api.addr_make("dealer-address");
        let seller_address = deps.api.addr_make("allowed-seller-0");
        let buyer_address = deps.api.addr_make("contract_buyer");
        save_contract_config(
            &mut deps.storage,
            &config(&deps.api, "allowed-seller-0", dealer_address.clone(), 3),
        )
        .unwrap();
        settled_setup(&mut deps, &seller_address, &buyer_address, "test.token.asset.pool.0");
        deps.registry = registry(&deps.api);
        deps.registry.markers = vec![Marker { id: "test.token.fm".to_string(), answer }];
        let result = execute(
            &mut deps.storage,
            &deps.registry,
            mock_env(),
            MessageInfo { sender: dealer_address },
            DealerConfirm {},
        );
        assert_eq!(result, Err(expected));
        assert_eq!(deps.storage.settlement_data, None);
    }
}

#[test]
fn dealer_confirm_twice_is_locked_out() {
    let mut deps = mock_dependencies();
    let dealer_address = deps.api.addr_make("dealer-address");
    let seller_address = deps.api.addr_make("allowed-seller-0");
    let buyer_address = deps.api.addr_make("contract_buyer");
    save_contract_config(
        &mut deps.storage,
        &config(&deps.api, "allowed-seller-0", dealer_address.clone(), 3),
    )
    .unwrap();
    settled_setup(&mut deps, &seller_address, &buyer_address, "test.token.asset.pool.0");
    deps.registry = registry(&deps.api);
    execute(
        &mut deps.storage,
        &deps.registry,
        mock_env(),
        MessageInfo { sender: dealer_address.clone() },
        DealerConfirm {},
    )
    .unwrap();
    let again = execute(
        &mut deps.storage,
        &deps.registry,
        mock_env(),
        MessageInfo { sender: dealer_address },
        DealerConfirm {},
    );
    assert_eq!(again, Err(ContractError::IllegalContractExecution));
}
