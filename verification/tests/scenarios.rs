use cosmwasm_std::testing::MockApi;
use forward_market_contract::contract::{execute, instantiate, query};
use forward_market_contract::error::ContractError;
use forward_market_contract::msg::ExecuteMsg::{
    AcceptBid, AcceptFinalizedPools, AddBid, AddSeller, ContractDisable, DealerConfirm,
    DealerReset, FinalizePools, MintTokens, RemoveAsSeller, RescindBid, RescindFinalizedPools,
    UpdateAllowedBuyers, UpdateAllowedSellers, UpdateFaceValueCents, UpdateSellerOfferHash,
};
use forward_market_contract::msg::{ExecuteMsg, InstantiateContractMsg, QueryMsg};
use forward_market_contract::registry::{
    Balance, BaseAccount, Coin, Holding, Marker, MarkerAccount, MarkerAnswer, MarkerMsg, Registry,
};
use forward_market_contract::response::{Attribute, BlockInfo, ContractInfo, Env, MessageInfo};
use forward_market_contract::storage::state_store::{
    Bid, Buyer, Seller, SettlementData, Store, TokenData,
};
use forward_market_contract::version_info::VersionInfoV1;

struct Api;

impl Api {
    fn addr_make(&self, input: &str) -> String {
        MockApi::default().addr_make(input).to_string()
    }
}

struct Deps {
    api: Api,
    storage: Store,
    registry: Registry,
}

fn mock_dependencies() -> Deps {
    Deps { api: Api, storage: Store::new(), registry: Registry::new() }
}

fn mock_env() -> Env {
    let env = cosmwasm_std::testing::mock_env();
    Env {
        block: BlockInfo { height: env.block.height },
        contract: ContractInfo { address: env.contract.address.to_string() },
    }
}

fn mock_version() -> VersionInfoV1 {
    VersionInfoV1 { definition: "mock".to_string(), version: "0.0.0".to_string() }
}

fn info(sender: &str) -> MessageInfo {
    MessageInfo { sender: Api.addr_make(sender) }
}

fn instantiated(max_buyer_count: i32) -> Deps {
    let mut deps = mock_dependencies();
    instantiate(
        &mut deps.storage,
        mock_env(),
        info("admin"),
        InstantiateContractMsg {
            use_private_sellers: false,
            use_private_buyers: false,
            allowed_sellers: vec![],
            allowed_buyers: vec![],
            max_buyer_count,
            dealers: vec![Api.addr_make("D")],
            face_value: None,
        },
    )
    .unwrap();
    deps.registry = Registry {
        holdings: vec![Holding {
            denom: "denomA".to_string(),
            balances: Ok(vec![Balance {
                address: Api.addr_make("S"),
                coins: vec![Coin { denom: "denomA".to_string(), amount: "1".to_string() }],
            }]),
        }],
        markers: vec![Marker {
            id: "fm.token".to_string(),
            answer: MarkerAnswer::Account(MarkerAccount {
                base_account: Some(BaseAccount { address: Api.addr_make("base") }),
                denom: "fm.token".to_string(),
            }),
        }],
    };
    deps
}

fn run(deps: &mut Deps, sender: &str, msg: ExecuteMsg) -> Result<Vec<MarkerMsg>, ContractError> {
    execute(&mut deps.storage, &deps.registry, mock_env(), info(sender), msg)
        .map(|response| response.messages)
}

fn all_commands() -> Vec<ExecuteMsg> {
    vec![
        AddSeller { accepted_value_cents: None, offer_hash: "H1".to_string() },
        UpdateSellerOfferHash { offer_hash: "H2".to_string() },
        RemoveAsSeller {},
        FinalizePools { pool_denoms: vec!["denomA".to_string()] },
        RescindFinalizedPools {},
        AddBid { agreement_terms_hash: "F1".to_string() },
        RescindBid {},
        AcceptBid { bidder_address: Api.addr_make("B1"), agreement_terms_hash: "F1".to_string() },
        AcceptFinalizedPools { offer_hash: "H1".to_string() },
        UpdateAllowedSellers { allowed_sellers: vec![] },
        UpdateAllowedBuyers { allowed_buyers: vec![] },
        UpdateFaceValueCents { min_face_value_cents: 1, max_face_value_cents: 1, tick_size: 1 },
        MintTokens { token_count: 1, token_denom: "fm.token".to_string() },
        DealerConfirm {},
        DealerReset {},
        ContractDisable {},
    ]
}

#[test]
fn happy_path() {
    let mut deps = instantiated(2);
    let contract = mock_env().contract.address;

    run(&mut deps, "admin", MintTokens { token_count: 10, token_denom: "fm.token".to_string() })
        .unwrap();
    run(&mut deps, "B1", AddBid { agreement_terms_hash: "F1".to_string() }).unwrap();
    run(&mut deps, "S", AddSeller { accepted_value_cents: None, offer_hash: "H1".to_string() })
        .unwrap();

    let moved = run(&mut deps, "S", FinalizePools { pool_denoms: vec!["denomA".to_string()] })
        .unwrap();
    assert_eq!(deps.storage.seller.as_ref().unwrap().pool_denoms, vec!["denomA".to_string()]);
    assert_eq!(
        moved,
        vec![MarkerMsg::Transfer {
            amount: Coin { denom: "denomA".to_string(), amount: "1".to_string() },
            administrator: contract.clone(),
            from_address: Api.addr_make("S"),
            to_address: contract.clone(),
        }]
    );

    let handed = run(
        &mut deps,
        "S",
        AcceptBid { bidder_address: Api.addr_make("B1"), agreement_terms_hash: "F1".to_string() },
    )
    .unwrap();
    assert_eq!(
        deps.storage.buyer,
        Some(Buyer {
            buyer_address: Api.addr_make("B1"),
            buyer_has_accepted_pools: false,
            agreement_terms_hash: "F1".to_string(),
        })
    );
    assert_eq!(
        handed,
        vec![MarkerMsg::Transfer {
            amount: Coin { denom: "fm.token".to_string(), amount: "10".to_string() },
            administrator: contract.clone(),
            from_address: contract.clone(),
            to_address: Api.addr_make("B1"),
        }]
    );

    run(&mut deps, "B1", AcceptFinalizedPools { offer_hash: "H1".to_string() }).unwrap();
    assert!(deps.storage.buyer.as_ref().unwrap().buyer_has_accepted_pools);

    let settled = run(&mut deps, "D", DealerConfirm {}).unwrap();
    assert_eq!(
        deps.storage.settlement_data,
        Some(SettlementData { block_height: 12345, settling_dealer: Api.addr_make("D") })
    );
    assert_eq!(
        settled,
        vec![
            MarkerMsg::Transfer {
                amount: Coin { denom: "denomA".to_string(), amount: "1".to_string() },
                administrator: contract.clone(),
                from_address: contract.clone(),
                to_address: Api.addr_make("base"),
            },
            MarkerMsg::DeleteAccess {
                denom: "fm.token".to_string(),
                administrator: contract.clone(),
                removed_address: contract,
            },
        ]
    );

    let state = query(&deps.storage, mock_env(), QueryMsg::GetContractState {}).unwrap();
    assert_eq!(
        state.bids,
        vec![Bid { buyer_address: Api.addr_make("B1"), agreement_terms_hash: "F1".to_string() }]
    );
    assert_eq!(
        state.token_data,
        Some(TokenData { token_denom: "fm.token".to_string(), token_count: 10 })
    );
    assert_eq!(state.settlement_data, deps.storage.settlement_data);
}

#[test]
fn reset_recovery() {
    let mut deps = instantiated(2);
    let contract = mock_env().contract.address;
    run(&mut deps, "admin", MintTokens { token_count: 10, token_denom: "fm.token".to_string() })
        .unwrap();
    run(&mut deps, "B1", AddBid { agreement_terms_hash: "F1".to_string() }).unwrap();
    run(&mut deps, "S", AddSeller { accepted_value_cents: None, offer_hash: "H1".to_string() })
        .unwrap();
    run(&mut deps, "S", FinalizePools { pool_denoms: vec!["denomA".to_string()] }).unwrap();
    run(
        &mut deps,
        "S",
        AcceptBid { bidder_address: Api.addr_make("B1"), agreement_terms_hash: "F1".to_string() },
    )
    .unwrap();
    let config_before = deps.storage.config.clone();

    let returned = run(&mut deps, "D", DealerReset {}).unwrap();
    assert_eq!(
        returned,
        vec![MarkerMsg::Transfer {
            amount: Coin { denom: "denomA".to_string(), amount: "1".to_string() },
            administrator: contract.clone(),
            from_address: contract,
            to_address: Api.addr_make("S"),
        }]
    );
    assert_eq!(deps.storage.buyer, None);
    assert_eq!(
        deps.storage.seller,
        Some(Seller {
            seller_address: Api.addr_make("S"),
            accepted_value_cents: None,
            pool_denoms: vec![],
            offer_hash: "H1".to_string(),
        })
    );
    assert_eq!(deps.storage.config, config_before);

    run(&mut deps, "S", FinalizePools { pool_denoms: vec!["denomA".to_string()] }).unwrap();
    assert_eq!(deps.storage.seller.unwrap().pool_denoms, vec!["denomA".to_string()]);
}

#[test]
fn every_command_is_locked_out_after_settlement() {
    let mut deps = instantiated(2);
    deps.storage.settlement_data =
        Some(SettlementData { block_height: 1, settling_dealer: Api.addr_make("D") });
    let before = deps.storage.clone();
    for sender in ["admin", "D", "S", "B1"] {
        for command in all_commands() {
            assert_eq!(
                run(&mut deps, sender, command),
                Err(ContractError::IllegalContractExecution)
            );
        }
    }
    assert_eq!(deps.storage, before);
}

#[test]
fn every_command_is_locked_out_when_disabled() {
    let mut deps = instantiated(2);
    run(&mut deps, "admin", ContractDisable {}).unwrap();
    let before = deps.storage.clone();
    for sender in ["admin", "D", "S", "B1"] {
        for command in all_commands() {
            assert_eq!(
                run(&mut deps, sender, command),
                Err(ContractError::InvalidContractExecution)
            );
        }
    }
    assert_eq!(deps.storage, before);
}

#[test]
fn settlement_comes_before_disablement() {
    let mut deps = instantiated(2);
    run(&mut deps, "admin", ContractDisable {}).unwrap();
    deps.storage.settlement_data =
        Some(SettlementData { block_height: 1, settling_dealer: Api.addr_make("D") });
    assert_eq!(
        run(&mut deps, "admin", ContractDisable {}),
        Err(ContractError::IllegalContractExecution)
    );
}

#[test]
fn a_second_seller_is_refused_after_other_commands() {
    let mut deps = instantiated(2);
    run(&mut deps, "S", AddSeller { accepted_value_cents: None, offer_hash: "H1".to_string() })
        .unwrap();
    run(&mut deps, "B1", AddBid { agreement_terms_hash: "F1".to_string() }).unwrap();
    run(&mut deps, "S", FinalizePools { pool_denoms: vec!["denomA".to_string()] }).unwrap();
    run(&mut deps, "D", DealerReset {}).unwrap();
    for sender in ["S", "other"] {
        assert_eq!(
            run(
                &mut deps,
                sender,
                AddSeller { accepted_value_cents: Some(5), offer_hash: "H9".to_string() }
            ),
            Err(ContractError::SellerAlreadyExists)
        );
    }
}

#[test]
fn a_failed_command_changes_nothing() {
    let mut deps = instantiated(2);
    run(&mut deps, "S", AddSeller { accepted_value_cents: None, offer_hash: "H1".to_string() })
        .unwrap();
    run(&mut deps, "B1", AddBid { agreement_terms_hash: "F1".to_string() }).unwrap();
    let before = deps.storage.clone();
    for command in all_commands() {
        if run(&mut deps, "stranger", command.clone()).is_err() {
            assert_eq!(deps.storage, before, "{:?}", command);
        } else {
            deps.storage = before.clone();
        }
    }
}

#[test]
fn rescind_finalized_pools_returns_the_pool() {
    let mut deps = instantiated(2);
    let contract = mock_env().contract.address;
    run(&mut deps, "S", AddSeller { accepted_value_cents: None, offer_hash: "H1".to_string() })
        .unwrap();
    assert_eq!(
        run(&mut deps, "S", RescindFinalizedPools {}),
        Err(ContractError::InvalidRescindRequest)
    );
    run(&mut deps, "S", FinalizePools { pool_denoms: vec!["denomA".to_string()] }).unwrap();
    assert_eq!(
        run(&mut deps, "B1", RescindFinalizedPools {}),
        Err(ContractError::UnauthorizedAsSeller)
    );
    let response = execute(
        &mut deps.storage,
        &deps.registry,
        mock_env(),
        info("S"),
        RescindFinalizedPools {},
    )
    .unwrap();
    let expected = Seller {
        seller_address: Api.addr_make("S"),
        accepted_value_cents: None,
        pool_denoms: vec![],
        offer_hash: "H1".to_string(),
    };
    assert_eq!(response.attributes, vec![Attribute::SellerState(expected.clone())]);
    assert_eq!(
        response.messages,
        vec![MarkerMsg::Transfer {
            amount: Coin { denom: "denomA".to_string(), amount: "1".to_string() },
            administrator: contract.clone(),
            from_address: contract,
            to_address: Api.addr_make("S"),
        }]
    );
    assert_eq!(deps.storage.seller, Some(expected));
}

#[test]
fn rescind_finalized_pools_is_refused_after_acceptance() {
    let mut deps = instantiated(2);
    run(&mut deps, "admin", MintTokens { token_count: 10, token_denom: "fm.token".to_string() })
        .unwrap();
    run(&mut deps, "B1", AddBid { agreement_terms_hash: "F1".to_string() }).unwrap();
    run(&mut deps, "S", AddSeller { accepted_value_cents: None, offer_hash: "H1".to_string() })
        .unwrap();
    run(&mut deps, "S", FinalizePools { pool_denoms: vec!["denomA".to_string()] }).unwrap();
    run(
        &mut deps,
        "S",
        AcceptBid { bidder_address: Api.addr_make("B1"), agreement_terms_hash: "F1".to_string() },
    )
    .unwrap();
    run(&mut deps, "B1", AcceptFinalizedPools { offer_hash: "H1".to_string() }).unwrap();
    assert_eq!(
        run(&mut deps, "S", RescindFinalizedPools {}),
        Err(ContractError::IllegalRescindRequest)
    );
    assert_eq!(run(&mut deps, "B1", RescindBid {}), Err(ContractError::IllegalBidRescind));
}
