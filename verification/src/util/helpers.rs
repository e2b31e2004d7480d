use crate::error::{result_view, unit_result_view, ContractError, ContractErrorView};
use crate::registry::{
    find_holding, find_marker, Access, AccessGrant, AccessGrantView, Coin, CoinView, MarkerAccount,
    MarkerAccountView, MarkerAnswer, MarkerAnswerView, MarkerMsg, MarkerMsgView, MarkerStatus,
    MarkerType, Registry, RegistryView,
};
use crate::response::{Attribute, AttributeView, MessageInfo, Response, ResponseView};
use crate::storage::state_store::{missing, missing_row, Config, ConfigView, Store, StoreView};
use crate::util::encoding::{decimal_text, uint128_text};
use crate::util::text::contains_text;
use vstd::prelude::*;

verus! {

/// What a command makes of a store: the store it leaves, and its answer.
pub struct Step {
    pub store: StoreView,
    pub result: Result<ResponseView, ContractErrorView>,
}

impl Step {
    /// The command fails with `error` and leaves `store` as it found it.
    pub open spec fn fail(store: StoreView, error: ContractErrorView) -> Step {
        Step { store, result: Err(error) }
    }

    /// The command succeeds, leaves `store` and answers `response`.
    pub open spec fn done(store: StoreView, response: ResponseView) -> Step {
        Step { store, result: Ok(response) }
    }

    /// The store `after` and the answer `r` are what the step says.
    pub open spec fn describes(self, after: StoreView, r: Result<Response, ContractError>) -> bool {
        &&& after == self.store
        &&& result_view(r) == self.result
    }
}

impl StoreView {
    /// `who` is the registered seller.
    pub open spec fn is_seller(self, who: Seq<char>) -> bool {
        self.seller matches Some(seller) && seller.seller_address == who
    }

    /// `who` is the buyer whose bid was accepted.
    pub open spec fn is_buyer(self, who: Seq<char>) -> bool {
        self.buyer matches Some(buyer) && buyer.buyer_address == who
    }

    /// The seller has locked a pool of assets.
    pub open spec fn seller_has_finalized(self) -> bool {
        self.seller matches Some(seller) && seller.pool_denoms.len() > 0
    }

    /// The bound buyer has accepted the finalized pool.
    pub open spec fn buyer_has_accepted(self) -> bool {
        self.buyer matches Some(buyer) && buyer.buyer_has_accepted_pools
    }
}

impl ConfigView {
    /// `who` is a dealer.
    pub open spec fn is_dealer(self, who: Seq<char>) -> bool {
        self.dealers.contains(who)
    }

    /// `who` is the contract admin.
    pub open spec fn is_admin(self, who: Seq<char>) -> bool {
        self.contract_admin == who
    }
}

/// Whether `who` is a dealer, or the storage error of a store without a configuration.
pub open spec fn dealer_check(store: StoreView, who: Seq<char>) -> Result<bool, ContractErrorView> {
    match store.config {
        Some(config) => Ok(config.is_dealer(who)),
        None => Err(missing_row("config"@)),
    }
}

/// Whether `who` is the admin, or the storage error of a store without a configuration.
pub open spec fn admin_check(store: StoreView, who: Seq<char>) -> Result<bool, ContractErrorView> {
    match store.config {
        Some(config) => Ok(config.is_admin(who)),
        None => Err(missing_row("config"@)),
    }
}

/// Whether the caller is the registered seller.
pub fn is_seller(store: &Store, info: &MessageInfo) -> (r: Result<bool, ContractError>)
    ensures
        r matches Ok(b) && b == store@.is_seller(info.sender@),
{
    match &store.seller {
        None => Ok(false),
        Some(seller) => Ok(seller.seller_address == info.sender),
    }
}

/// Whether the caller is a dealer.
pub fn is_dealer(store: &Store, info: &MessageInfo) -> (r: Result<bool, ContractError>)
    ensures
        result_view(r) == dealer_check(store@, info.sender@),
{
    match &store.config {
        None => Err(missing("config")),
        Some(config) => Ok(contains_text(&config.dealers, &info.sender)),
    }
}

/// Whether the seller has locked a pool.
pub fn seller_has_finalized(store: &Store) -> (r: Result<bool, ContractError>)
    ensures
        r matches Ok(b) && b == store@.seller_has_finalized(),
{
    match &store.seller {
        None => Ok(false),
        Some(seller) => Ok(seller.pool_denoms.len() != 0),
    }
}

/// Whether the caller is the bound buyer.
pub fn is_buyer(store: &Store, info: &MessageInfo) -> (r: Result<bool, ContractError>)
    ensures
        r matches Ok(b) && b == store@.is_buyer(info.sender@),
{
    match &store.buyer {
        None => Ok(false),
        Some(state) => Ok(state.buyer_address == info.sender),
    }
}

/// Whether the bound buyer has accepted the locked pool.
pub fn buyer_has_accepted(store: &Store) -> (r: Result<bool, ContractError>)
    ensures
        r matches Ok(b) && b == store@.buyer_has_accepted(),
{
    match &store.buyer {
        None => Ok(false),
        Some(state) => Ok(state.buyer_has_accepted_pools),
    }
}

/// Whether the caller is the contract admin.
pub fn is_contract_admin(store: &Store, info: &MessageInfo) -> (r: Result<bool, ContractError>)
    ensures
        result_view(r) == admin_check(store@, info.sender@),
{
    match &store.config {
        None => Err(missing("config")),
        Some(config) => Ok(info.sender == config.contract_admin),
    }
}

/// Replacing the configuration: only the admin may, and only until both a
/// seller and a buyer are bound. The answer reports the new configuration.
pub open spec fn update_config_step(pre: StoreView, sender: Seq<char>, updated: ConfigView) -> Step {
    match pre.config {
        None => Step::fail(pre, missing_row("config"@)),
        Some(config) => if !config.is_admin(sender) {
            Step::fail(pre, ContractErrorView::UnauthorizedConfigUpdate)
        } else if pre.seller is Some && pre.buyer is Some {
            Step::fail(pre, ContractErrorView::IllegalConfigUpdate)
        } else {
            Step::done(
                StoreView { config: Some(updated), ..pre },
                ResponseView::reporting(seq![], AttributeView::ContractConfig(updated)),
            )
        },
    }
}

/// Replaces the configuration on the admin's authority; see [`update_config_step`].
pub fn update_config_as_admin(store: &mut Store, info: MessageInfo, updated_config: Config) -> (r:
    Result<Response, ContractError>)
    ensures
        update_config_step(old(store)@, info.sender@, updated_config@).describes(final(store)@, r),
{
    match is_contract_admin(store, &info) {
        Err(e) => {
            return Err(e);
        },
        Ok(is_admin) => {
            if !is_admin {
                return Err(ContractError::UnauthorizedConfigUpdate);
            }
        },
    }
    if store.seller.is_some() && store.buyer.is_some() {
        return Err(ContractError::IllegalConfigUpdate);
    }
    let reported = updated_config.clone();
    store.config = Some(updated_config);
    let response = Response::new().add_attribute(Attribute::ContractConfig(reported));
    assert(response@.messages =~= seq![]);
    assert(response@.attributes =~= seq![AttributeView::ContractConfig(updated_config@)]);
    Ok(response)
}

/// The first defect of face-value bounds, in the order in which they are
/// looked for; none if the bounds are valid.
pub open spec fn face_value_check(min: u128, max: u128, tick: u128) -> Result<
    (),
    ContractErrorView,
> {
    if tick == 0 {
        Err(ContractErrorView::TickSizeMustBePositive)
    } else if min == 0 {
        Err(ContractErrorView::FaceValueMustBePositive)
    } else if max < min {
        Err(ContractErrorView::InvalidMaxFaceValue)
    } else if min % tick != 0 || max % tick != 0 {
        Err(ContractErrorView::InvalidTickSizeValueMatch)
    } else {
        Ok(())
    }
}

/// Checks face-value bounds; see [`face_value_check`].
pub fn validate_face_values(
    min_face_value_cents: u128,
    max_face_value_cents: u128,
    tick_size: u128,
) -> (r: Result<(), ContractError>)
    ensures
        unit_result_view(r) == face_value_check(
            min_face_value_cents,
            max_face_value_cents,
            tick_size,
        ),
{
    if tick_size == 0 {
        return Err(ContractError::TickSizeMustBePositive);
    }
    if min_face_value_cents == 0 {
        return Err(ContractError::FaceValueMustBePositive);
    }
    if max_face_value_cents < min_face_value_cents {
        return Err(ContractError::InvalidMaxFaceValue);
    }
    if min_face_value_cents % tick_size != 0 || max_face_value_cents % tick_size != 0 {
        return Err(ContractError::InvalidTickSizeValueMatch);
    }
    Ok(())
}

/// The one coin of a denomination and the one address that holds it.
#[derive(Clone, Debug, PartialEq, Eq)]
pub struct HeldCoin {
    pub coin: Coin,
    pub address: String,
}

/// The mathematical content of a [`HeldCoin`].
pub struct HeldCoinView {
    pub coin: CoinView,
    pub address: Seq<char>,
}

impl View for HeldCoin {
    type V = HeldCoinView;

    open spec fn view(&self) -> HeldCoinView {
        HeldCoinView { coin: self.coin@, address: self.address@ }
    }
}

impl DeepView for HeldCoin {
    type V = HeldCoinView;

    open spec fn deep_view(&self) -> HeldCoinView {
        self@
    }
}

/// The reason given where the registry was never asked about a denomination.
pub open spec fn no_holding_answer() -> Seq<char> {
    "no holding answer for denom"@
}

/// The sole holder of `denom` and its coin. The registry must have answered
/// with exactly one holder of exactly one coin: more than one holder is an
/// ownership error, any other shape an invalid denomination.
pub open spec fn sole_holding(registry: RegistryView, denom: Seq<char>) -> Result<
    HeldCoinView,
    ContractErrorView,
> {
    match find_holding(registry.holdings, denom) {
        None => Err(ContractErrorView::Std(no_holding_answer())),
        Some(Err(reason)) => Err(ContractErrorView::Std(reason)),
        Some(Ok(balances)) => if balances.len() > 1 {
            Err(ContractErrorView::InvalidDenomOwnership { denom })
        } else if balances.len() != 1 || balances[0].coins.len() != 1 {
            Err(ContractErrorView::InvalidDenom { denom })
        } else {
            Ok(HeldCoinView { coin: balances[0].coins[0], address: balances[0].address })
        },
    }
}

/// Reads the sole holding of `denom` from the registry's answers; see [`sole_holding`].
pub fn get_balance(registry: &Registry, denom: String) -> (r: Result<HeldCoin, ContractError>)
    ensures
        result_view(r) == sole_holding(registry@, denom@),
{
    let index = match registry.holding_index(&denom) {
        None => {
            return Err(ContractError::Std("no holding answer for denom".to_owned()));
        },
        Some(index) => index,
    };
    let balances = match &registry.holdings[index].balances {
        Err(reason) => {
            return Err(ContractError::Std(reason.clone()));
        },
        Ok(balances) => balances,
    };
    if balances.len() > 1 {
        return Err(ContractError::InvalidDenomOwnership { denom });
    }
    if balances.len() != 1 {
        return Err(ContractError::InvalidDenom { denom });
    }
    let balance = &balances[0];
    if balance.coins.len() != 1 {
        return Err(ContractError::InvalidDenom { denom });
    }
    Ok(HeldCoin { coin: balance.coins[0].clone(), address: balance.address.clone() })
}

/// The reason given where the registry was never asked about a marker.
pub open spec fn no_marker_answer() -> Seq<char> {
    "no marker answer for id"@
}

/// The marker account under `id`, or the reason why there is none to read.
pub open spec fn marker_account(registry: RegistryView, id: Seq<char>) -> Result<
    MarkerAccountView,
    ContractErrorView,
> {
    match find_marker(registry.markers, id) {
        None => Err(ContractErrorView::Std(no_marker_answer())),
        Some(MarkerAnswerView::Failed(reason)) => Err(ContractErrorView::Std(reason)),
        Some(MarkerAnswerView::Absent) => Err(ContractErrorView::Std("no marker found for id"@)),
        Some(MarkerAnswerView::Unreadable) => Err(
            ContractErrorView::Std("unable to type-cast marker account"@),
        ),
        Some(MarkerAnswerView::Account(account)) => Ok(account),
    }
}

/// Reads the marker account under `id` from the registry's answers; see [`marker_account`].
pub fn get_marker(id: String, registry: &Registry) -> (r: Result<MarkerAccount, ContractError>)
    ensures
        result_view(r) == marker_account(registry@, id@),
{
    let index = match registry.marker_index(&id) {
        None => {
            return Err(ContractError::Std("no marker answer for id".to_owned()));
        },
        Some(index) => index,
    };
    match &registry.markers[index].answer {
        MarkerAnswer::Failed(reason) => Err(ContractError::Std(reason.clone())),
        MarkerAnswer::Absent => Err(ContractError::Std("no marker found for id".to_owned())),
        MarkerAnswer::Unreadable => Err(
            ContractError::Std("unable to type-cast marker account".to_owned()),
        ),
        MarkerAnswer::Account(account) => Ok(account.clone()),
    }
}

/// The instruction that moves custody of `coin` from `from` to `to`, on the
/// contract's authority.
pub open spec fn transfer_of(
    coin: CoinView,
    contract: Seq<char>,
    from: Seq<char>,
    to: Seq<char>,
) -> MarkerMsgView {
    MarkerMsgView::Transfer { amount: coin, administrator: contract, from_address: from, to_address: to }
}

/// The custody moves for `denoms`, one per denomination and in their order,
/// each of the coin that the registry reports under its sole holder. Where
/// `holder` is given, every denomination must be held by that address. The
/// first denomination that fails decides the error.
pub open spec fn custody_moves(
    registry: RegistryView,
    denoms: Seq<Seq<char>>,
    holder: Option<Seq<char>>,
    contract: Seq<char>,
    from: Seq<char>,
    to: Seq<char>,
) -> Result<Seq<MarkerMsgView>, ContractErrorView>
    decreases denoms.len(),
{
    if denoms.len() == 0 {
        Ok(seq![])
    } else {
        match custody_moves(registry, denoms.drop_last(), holder, contract, from, to) {
            Err(e) => Err(e),
            Ok(moves) => match sole_holding(registry, denoms.last()) {
                Err(e) => Err(e),
                Ok(held) => if holder is Some && holder != Some(held.address) {
                    Err(ContractErrorView::IllegalCoinOwnership)
                } else {
                    Ok(moves.push(transfer_of(held.coin, contract, from, to)))
                },
            },
        }
    }
}

/// The mathematical content of a list of instructions or of the error in its place.
pub open spec fn messages_view(r: Result<Vec<MarkerMsg>, ContractError>) -> Result<
    Seq<MarkerMsgView>,
    ContractErrorView,
> {
    match r {
        Ok(messages) => Ok(messages.deep_view()),
        Err(e) => Err(e@),
    }
}

/// Collects the custody moves for `denoms`; see [`custody_moves`].
pub fn collect_custody_moves(
    registry: &Registry,
    denoms: &Vec<String>,
    holder: Option<&String>,
    contract: &String,
    from: &String,
    to: &String,
) -> (r: Result<Vec<MarkerMsg>, ContractError>)
    ensures
        messages_view(r) == custody_moves(
            registry@,
            denoms.deep_view(),
            match holder {
                Some(h) => Some(h@),
                None => None,
            },
            contract@,
            from@,
            to@,
        ),
{
    let ghost wanted: Option<Seq<char>> = match holder {
        Some(h) => Some(h@),
        None => None,
    };
    let mut messages: Vec<MarkerMsg> = Vec::new();
    let mut i: usize = 0;
    assert(denoms.deep_view().take(0) =~= seq![]);
    assert(messages.deep_view() =~= seq![]);
    while i < denoms.len()
        invariant
            i <= denoms.len(),
            wanted == match holder {
                Some(h) => Some(h@),
                None => None,
            },
            custody_moves(registry@, denoms.deep_view().take(i as int), wanted, contract@, from@, to@)
                == Ok::<Seq<MarkerMsgView>, ContractErrorView>(messages.deep_view()),
        decreases denoms.len() - i,
    {
        let ghost before = messages.deep_view();
        let ghost all = denoms.deep_view();
        proof {
            assert(all.take(i + 1).drop_last() =~= all.take(i as int));
            assert(all.take(i + 1).last() == denoms[i as int]@);
            if i + 1 == denoms.len() {
                assert(all.take(i + 1) =~= all);
            }
        }
        let held = match get_balance(registry, denoms[i].clone()) {
            Err(e) => {
                proof {
                    lemma_custody_moves_fail(registry@, all, i + 1, wanted, contract@, from@, to@);
                }
                return Err(e);
            },
            Ok(held) => held,
        };
        match holder {
            Some(h) => {
                if held.address != *h {
                    proof {
                        lemma_custody_moves_fail(
                            registry@,
                            all,
                            i + 1,
                            wanted,
                            contract@,
                            from@,
                            to@,
                        );
                    }
                    return Err(ContractError::IllegalCoinOwnership);
                }
            },
            None => {},
        }
        let message = MarkerMsg::Transfer {
            amount: held.coin,
            administrator: contract.clone(),
            from_address: from.clone(),
            to_address: to.clone(),
        };
        messages.push(message);
        assert(messages.deep_view() =~= before.push(transfer_of(held.coin@, contract@, from@, to@)));
        i = i + 1;
    }
    assert(denoms.deep_view().take(i as int) =~= denoms.deep_view());
    Ok(messages)
}

/// Once a prefix of the denominations fails, the whole list fails in the same way.
pub proof fn lemma_custody_moves_fail(
    registry: RegistryView,
    denoms: Seq<Seq<char>>,
    n: int,
    holder: Option<Seq<char>>,
    contract: Seq<char>,
    from: Seq<char>,
    to: Seq<char>,
)
    requires
        0 <= n <= denoms.len(),
        custody_moves(registry, denoms.take(n), holder, contract, from, to) is Err,
    ensures
        custody_moves(registry, denoms, holder, contract, from, to) == custody_moves(
            registry,
            denoms.take(n),
            holder,
            contract,
            from,
            to,
        ),
    decreases denoms.len() - n,
{
    if n == denoms.len() {
        assert(denoms.take(n) =~= denoms);
    } else {
        assert(denoms.take(n + 1).drop_last() =~= denoms.take(n));
        lemma_custody_moves_fail(registry, denoms, n + 1, holder, contract, from, to);
    }
}

/// The custody moves fail only for a reason that lies with the registry's
/// answers: the registry's own failure, a denomination without exactly one
/// holder of one coin, or a holder other than the one required.
pub proof fn lemma_custody_moves_errors(
    registry: RegistryView,
    denoms: Seq<Seq<char>>,
    holder: Option<Seq<char>>,
    contract: Seq<char>,
    from: Seq<char>,
    to: Seq<char>,
)
    ensures
        custody_moves(registry, denoms, holder, contract, from, to) matches Err(e) ==> (e is Std
            || e is InvalidDenom || e is InvalidDenomOwnership || e is IllegalCoinOwnership),
        custody_moves(registry, denoms, holder, contract, from, to) matches Ok(moves)
            ==> moves.len() == denoms.len(),
    decreases denoms.len(),
{
    if denoms.len() > 0 {
        lemma_custody_moves_errors(registry, denoms.drop_last(), holder, contract, from, to);
    }
}

/// The custody moves that return the pooled denominations from the contract to
/// the seller; see [`custody_moves`].
pub fn create_send_coin_back_to_seller_messages(
    registry: &Registry,
    contract_address: String,
    seller_address: String,
    pool_denoms: Vec<String>,
) -> (r: Result<Vec<MarkerMsg>, ContractError>)
    ensures
        messages_view(r) == custody_moves(
            registry@,
            pool_denoms.deep_view(),
            None,
            contract_address@,
            contract_address@,
            seller_address@,
        ),
{
    collect_custody_moves(
        registry,
        &pool_denoms,
        None,
        &contract_address,
        &contract_address,
        &seller_address,
    )
}

/// What a dealer may do with the settlement token: take out and put in.
pub open spec fn dealer_grant(dealer: Seq<char>) -> AccessGrantView {
    AccessGrantView { address: dealer, permissions: seq![Access::Withdraw, Access::Deposit] }
}

/// What the contract may do with the settlement token until settlement: everything.
pub open spec fn contract_grant(contract: Seq<char>) -> AccessGrantView {
    AccessGrantView {
        address: contract,
        permissions: seq![
            Access::Admin,
            Access::Burn,
            Access::Mint,
            Access::Deposit,
            Access::Withdraw,
            Access::Delete,
        ],
    }
}

/// The instructions that create the settlement token `denom` with a supply of
/// `amount` and hand all of it to `owner`: propose the marker with a grant for
/// each dealer and one for the contract, finalize it, activate it, withdraw.
pub open spec fn marker_creation(
    contract: Seq<char>,
    denom: Seq<char>,
    amount: u128,
    owner: Seq<char>,
    dealers: Seq<Seq<char>>,
) -> Seq<MarkerMsgView> {
    let coin = CoinView { denom, amount: decimal_text(amount as nat) };
    seq![
        MarkerMsgView::AddMarker {
            amount: coin,
            manager: contract,
            from_address: contract,
            status: MarkerStatus::Proposed,
            marker_type: MarkerType::Coin,
            access_list: dealers.map_values(|d: Seq<char>| dealer_grant(d)).push(
                contract_grant(contract),
            ),
            supply_fixed: false,
            allow_governance_control: true,
            allow_forced_transfer: false,
            required_attributes: seq![],
        },
        MarkerMsgView::Finalize { denom, administrator: contract },
        MarkerMsgView::Activate { denom, administrator: contract },
        MarkerMsgView::Withdraw {
            denom,
            administrator: contract,
            to_address: owner,
            amount: seq![coin],
        },
    ]
}

/// Builds the instructions that create the settlement token and hand it to its
/// owner; see [`marker_creation`].
pub fn create_and_transfer_marker(
    contract_address: String,
    denom: String,
    amount: u128,
    owner_address: String,
    dealer_list: Vec<String>,
) -> (messages: Vec<MarkerMsg>)
    ensures
        messages.deep_view() == marker_creation(
            contract_address@,
            denom@,
            amount,
            owner_address@,
            dealer_list.deep_view(),
        ),
{
    let mut access_grants: Vec<AccessGrant> = Vec::new();
    let mut i: usize = 0;
    while i < dealer_list.len()
        invariant
            i <= dealer_list.len(),
            access_grants.len() == i,
            forall|j: int| 0 <= j < i ==> access_grants[j]@ == dealer_grant(dealer_list[j]@),
        decreases dealer_list.len() - i,
    {
        let mut permissions: Vec<Access> = Vec::new();
        permissions.push(Access::Withdraw);
        permissions.push(Access::Deposit);
        assert(permissions@ =~= seq![Access::Withdraw, Access::Deposit]);
        access_grants.push(AccessGrant { address: dealer_list[i].clone(), permissions });
        i = i + 1;
    }
    let mut permissions: Vec<Access> = Vec::new();
    permissions.push(Access::Admin);
    permissions.push(Access::Burn);
    permissions.push(Access::Mint);
    permissions.push(Access::Deposit);
    permissions.push(Access::Withdraw);
    permissions.push(Access::Delete);
    assert(permissions@ =~= contract_grant(contract_address@).permissions);
    access_grants.push(AccessGrant { address: contract_address.clone(), permissions });
    assert(access_grants.deep_view() =~= dealer_list.deep_view().map_values(
        |d: Seq<char>| dealer_grant(d),
    ).push(contract_grant(contract_address@)));

    let text = uint128_text(amount);
    let mut withdrawn: Vec<Coin> = Vec::new();
    withdrawn.push(Coin { denom: denom.clone(), amount: text.clone() });
    assert(withdrawn.deep_view() =~= seq![
        CoinView { denom: denom@, amount: decimal_text(amount as nat) },
    ]);
    let required_attributes: Vec<String> = Vec::new();
    assert(required_attributes.deep_view() =~= seq![]);

    let mut messages: Vec<MarkerMsg> = Vec::new();
    messages.push(
        MarkerMsg::AddMarker {
            amount: Coin { denom: denom.clone(), amount: text },
            manager: contract_address.clone(),
            from_address: contract_address.clone(),
            status: MarkerStatus::Proposed,
            marker_type: MarkerType::Coin,
            access_list: access_grants,
            supply_fixed: false,
            allow_governance_control: true,
            allow_forced_transfer: false,
            required_attributes,
        },
    );
    messages.push(
        MarkerMsg::Finalize { denom: denom.clone(), administrator: contract_address.clone() },
    );
    messages.push(
        MarkerMsg::Activate { denom: denom.clone(), administrator: contract_address.clone() },
    );
    messages.push(
        MarkerMsg::Withdraw {
            denom: denom.clone(),
            administrator: contract_address.clone(),
            to_address: owner_address.clone(),
            amount: withdrawn,
        },
    );
    assert(messages.deep_view() =~= marker_creation(
        contract_address@,
        denom@,
        amount,
        owner_address@,
        dealer_list.deep_view(),
    ));
    messages
}

/// The instruction that hands `amount` of the minted settlement token `denom`,
/// which the contract holds, to `owner`.
pub open spec fn token_transfer(
    contract: Seq<char>,
    denom: Seq<char>,
    amount: u128,
    owner: Seq<char>,
) -> Seq<MarkerMsgView> {
    seq![
        transfer_of(
            CoinView { denom, amount: decimal_text(amount as nat) },
            contract,
            contract,
            owner,
        ),
    ]
}

/// Builds the instruction that hands the minted settlement token to its owner;
/// see [`token_transfer`].
pub fn create_transfer_tokens_message(
    contract_address: String,
    denom: String,
    amount: u128,
    owner_address: String,
) -> (messages: Vec<MarkerMsg>)
    ensures
        messages.deep_view() == token_transfer(contract_address@, denom@, amount, owner_address@),
{
    let mut messages: Vec<MarkerMsg> = Vec::new();
    messages.push(
        MarkerMsg::Transfer {
            amount: Coin { denom, amount: uint128_text(amount) },
            administrator: contract_address.clone(),
            from_address: contract_address,
            to_address: owner_address,
        },
    );
    assert(messages.deep_view() =~= token_transfer(
        contract_address@,
        denom@,
        amount,
        owner_address@,
    ));
    messages
}

} // verus!
