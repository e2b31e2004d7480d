use crate::error::{result_view, ContractError, ContractErrorView};
use crate::util::text::clone_texts;
use crate::version_info::{VersionInfoV1, VersionInfoV1View};
use vstd::prelude::*;

verus! {

/// The optional face-value terms of a trade: the denomination of the settlement
/// token that acceptance creates, and the bounds on the value a seller may accept.
#[derive(Debug, PartialEq, Eq)]
pub struct FaceValue {
    pub token_denom: String,
    pub min_face_value_cents: u128,
    pub max_face_value_cents: u128,
    pub tick_size: u128,
}

/// The mathematical content of a [`FaceValue`].
pub struct FaceValueView {
    pub token_denom: Seq<char>,
    pub min_face_value_cents: u128,
    pub max_face_value_cents: u128,
    pub tick_size: u128,
}

impl View for FaceValue {
    type V = FaceValueView;

    open spec fn view(&self) -> FaceValueView {
        FaceValueView {
            token_denom: self.token_denom@,
            min_face_value_cents: self.min_face_value_cents,
            max_face_value_cents: self.max_face_value_cents,
            tick_size: self.tick_size,
        }
    }
}

impl DeepView for FaceValue {
    type V = FaceValueView;

    open spec fn deep_view(&self) -> FaceValueView {
        self@
    }
}

impl Clone for FaceValue {
    fn clone(&self) -> (r: Self)
        ensures
            r@ == self@,
    {
        FaceValue {
            token_denom: self.token_denom.clone(),
            min_face_value_cents: self.min_face_value_cents,
            max_face_value_cents: self.max_face_value_cents,
            tick_size: self.tick_size,
        }
    }
}

impl FaceValueView {
    /// The bounds are ordered and positive, and both are multiples of a positive tick.
    pub open spec fn is_valid(self) -> bool {
        &&& self.tick_size > 0
        &&& self.min_face_value_cents > 0
        &&& self.max_face_value_cents >= self.min_face_value_cents
        &&& self.min_face_value_cents % self.tick_size == 0
        &&& self.max_face_value_cents % self.tick_size == 0
    }
}

/// The parameters of a trade and the identities that may act on it.
#[derive(Debug, PartialEq, Eq)]
pub struct Config {
    pub use_private_sellers: bool,
    pub use_private_buyers: bool,
    pub allowed_sellers: Vec<String>,
    pub allowed_buyers: Vec<String>,
    pub max_bid_count: i32,
    pub dealers: Vec<String>,
    pub is_disabled: bool,
    pub contract_admin: String,
    pub face_value: Option<FaceValue>,
}

/// The mathematical content of a [`Config`].
pub struct ConfigView {
    pub use_private_sellers: bool,
    pub use_private_buyers: bool,
    pub allowed_sellers: Seq<Seq<char>>,
    pub allowed_buyers: Seq<Seq<char>>,
    pub max_bid_count: i32,
    pub dealers: Seq<Seq<char>>,
    pub is_disabled: bool,
    pub contract_admin: Seq<char>,
    pub face_value: Option<FaceValueView>,
}

impl View for Config {
    type V = ConfigView;

    open spec fn view(&self) -> ConfigView {
        ConfigView {
            use_private_sellers: self.use_private_sellers,
            use_private_buyers: self.use_private_buyers,
            allowed_sellers: self.allowed_sellers.deep_view(),
            allowed_buyers: self.allowed_buyers.deep_view(),
            max_bid_count: self.max_bid_count,
            dealers: self.dealers.deep_view(),
            is_disabled: self.is_disabled,
            contract_admin: self.contract_admin@,
            face_value: self.face_value.deep_view(),
        }
    }
}

impl DeepView for Config {
    type V = ConfigView;

    open spec fn deep_view(&self) -> ConfigView {
        self@
    }
}

impl Clone for Config {
    fn clone(&self) -> (r: Self)
        ensures
            r@ == self@,
    {
        let face_value = match &self.face_value {
            Some(terms) => Some(terms.clone()),
            None => None,
        };
        Config {
            use_private_sellers: self.use_private_sellers,
            use_private_buyers: self.use_private_buyers,
            allowed_sellers: clone_texts(&self.allowed_sellers),
            allowed_buyers: clone_texts(&self.allowed_buyers),
            max_bid_count: self.max_bid_count,
            dealers: clone_texts(&self.dealers),
            is_disabled: self.is_disabled,
            contract_admin: self.contract_admin.clone(),
            face_value,
        }
    }
}

impl ConfigView {
    /// An allow-list is empty unless its side is private, there is a dealer, and
    /// face-value terms, where present, are valid.
    pub open spec fn is_valid(self) -> bool {
        &&& !self.use_private_sellers ==> self.allowed_sellers.len() == 0
        &&& !self.use_private_buyers ==> self.allowed_buyers.len() == 0
        &&& self.dealers.len() > 0
        &&& self.face_value matches Some(terms) ==> terms.is_valid()
    }
}

/// The party that commits the asset pool.
#[derive(Debug, PartialEq, Eq)]
pub struct Seller {
    pub seller_address: String,
    pub accepted_value_cents: Option<u128>,
    pub pool_denoms: Vec<String>,
    pub offer_hash: String,
}

/// The mathematical content of a [`Seller`].
pub struct SellerView {
    pub seller_address: Seq<char>,
    pub accepted_value_cents: Option<u128>,
    pub pool_denoms: Seq<Seq<char>>,
    pub offer_hash: Seq<char>,
}

impl View for Seller {
    type V = SellerView;

    open spec fn view(&self) -> SellerView {
        SellerView {
            seller_address: self.seller_address@,
            accepted_value_cents: self.accepted_value_cents,
            pool_denoms: self.pool_denoms.deep_view(),
            offer_hash: self.offer_hash@,
        }
    }
}

impl DeepView for Seller {
    type V = SellerView;

    open spec fn deep_view(&self) -> SellerView {
        self@
    }
}

impl Clone for Seller {
    fn clone(&self) -> (r: Self)
        ensures
            r@ == self@,
    {
        Seller {
            seller_address: self.seller_address.clone(),
            accepted_value_cents: self.accepted_value_cents,
            pool_denoms: clone_texts(&self.pool_denoms),
            offer_hash: self.offer_hash.clone(),
        }
    }
}

/// One prospective counterparty's standing bid.
#[derive(Debug, PartialEq, Eq)]
pub struct Bid {
    pub buyer_address: String,
    pub agreement_terms_hash: String,
}

/// The mathematical content of a [`Bid`].
pub struct BidView {
    pub buyer_address: Seq<char>,
    pub agreement_terms_hash: Seq<char>,
}

impl View for Bid {
    type V = BidView;

    open spec fn view(&self) -> BidView {
        BidView {
            buyer_address: self.buyer_address@,
            agreement_terms_hash: self.agreement_terms_hash@,
        }
    }
}

impl DeepView for Bid {
    type V = BidView;

    open spec fn deep_view(&self) -> BidView {
        self@
    }
}

impl Clone for Bid {
    fn clone(&self) -> (r: Self)
        ensures
            r@ == self@,
    {
        Bid {
            buyer_address: self.buyer_address.clone(),
            agreement_terms_hash: self.agreement_terms_hash.clone(),
        }
    }
}

/// An owned copy of every bid in `bids`, in the same order.
pub fn clone_bids(bids: &Vec<Bid>) -> (r: Vec<Bid>)
    ensures
        r.deep_view() == bids.deep_view(),
{
    let mut out: Vec<Bid> = Vec::new();
    let mut i: usize = 0;
    while i < bids.len()
        invariant
            i <= bids.len(),
            out.len() == i,
            forall|j: int| 0 <= j < i ==> out[j]@ == bids[j]@,
        decreases bids.len() - i,
    {
        out.push(bids[i].clone());
        i = i + 1;
    }
    assert(out.deep_view() =~= bids.deep_view());
    out
}

/// The standing bids, in the order in which their bidders last submitted.
#[derive(Debug, PartialEq, Eq)]
pub struct BidList {
    pub bids: Vec<Bid>,
}

/// The mathematical content of a [`BidList`].
pub struct BidListView {
    pub bids: Seq<BidView>,
}

impl View for BidList {
    type V = BidListView;

    open spec fn view(&self) -> BidListView {
        BidListView { bids: self.bids.deep_view() }
    }
}

impl DeepView for BidList {
    type V = BidListView;

    open spec fn deep_view(&self) -> BidListView {
        self@
    }
}

impl Clone for BidList {
    fn clone(&self) -> (r: Self)
        ensures
            r@ == self@,
    {
        BidList { bids: clone_bids(&self.bids) }
    }
}

impl BidListView {
    /// No bidder holds two bids.
    pub open spec fn is_valid(self) -> bool {
        forall|i: int, j: int|
            #![trigger self.bids[i], self.bids[j]]
            0 <= i < j < self.bids.len() ==> self.bids[i].buyer_address
                != self.bids[j].buyer_address
    }
}

/// The record of the one-time mint of the settlement token.
#[derive(Debug, PartialEq, Eq)]
pub struct TokenData {
    pub token_denom: String,
    pub token_count: u128,
}

/// The mathematical content of a [`TokenData`].
pub struct TokenDataView {
    pub token_denom: Seq<char>,
    pub token_count: u128,
}

impl View for TokenData {
    type V = TokenDataView;

    open spec fn view(&self) -> TokenDataView {
        TokenDataView { token_denom: self.token_denom@, token_count: self.token_count }
    }
}

impl DeepView for TokenData {
    type V = TokenDataView;

    open spec fn deep_view(&self) -> TokenDataView {
        self@
    }
}

impl Clone for TokenData {
    fn clone(&self) -> (r: Self)
        ensures
            r@ == self@,
    {
        TokenData { token_denom: self.token_denom.clone(), token_count: self.token_count }
    }
}

/// The terminal record that a dealer's confirmation writes.
#[derive(Debug, PartialEq, Eq)]
pub struct SettlementData {
    pub block_height: u64,
    pub settling_dealer: String,
}

/// The mathematical content of a [`SettlementData`].
pub struct SettlementDataView {
    pub block_height: u64,
    pub settling_dealer: Seq<char>,
}

impl View for SettlementData {
    type V = SettlementDataView;

    open spec fn view(&self) -> SettlementDataView {
        SettlementDataView {
            block_height: self.block_height,
            settling_dealer: self.settling_dealer@,
        }
    }
}

impl DeepView for SettlementData {
    type V = SettlementDataView;

    open spec fn deep_view(&self) -> SettlementDataView {
        self@
    }
}

impl Clone for SettlementData {
    fn clone(&self) -> (r: Self)
        ensures
            r@ == self@,
    {
        SettlementData {
            block_height: self.block_height,
            settling_dealer: self.settling_dealer.clone(),
        }
    }
}

/// The counterparty whose bid the seller accepted.
#[derive(Debug, PartialEq, Eq)]
pub struct Buyer {
    pub buyer_address: String,
    pub buyer_has_accepted_pools: bool,
    pub agreement_terms_hash: String,
}

/// The mathematical content of a [`Buyer`].
pub struct BuyerView {
    pub buyer_address: Seq<char>,
    pub buyer_has_accepted_pools: bool,
    pub agreement_terms_hash: Seq<char>,
}

impl View for Buyer {
    type V = BuyerView;

    open spec fn view(&self) -> BuyerView {
        BuyerView {
            buyer_address: self.buyer_address@,
            buyer_has_accepted_pools: self.buyer_has_accepted_pools,
            agreement_terms_hash: self.agreement_terms_hash@,
        }
    }
}

impl DeepView for Buyer {
    type V = BuyerView;

    open spec fn deep_view(&self) -> BuyerView {
        self@
    }
}

impl Clone for Buyer {
    fn clone(&self) -> (r: Self)
        ensures
            r@ == self@,
    {
        Buyer {
            buyer_address: self.buyer_address.clone(),
            buyer_has_accepted_pools: self.buyer_has_accepted_pools,
            agreement_terms_hash: self.agreement_terms_hash.clone(),
        }
    }
}

/// The persisted rows of one contract instance. A row that was never written,
/// or that was removed, is `None`.
#[derive(Clone, Debug, PartialEq, Eq)]
pub struct Store {
    pub config: Option<Config>,
    pub seller: Option<Seller>,
    pub bid_list: Option<BidList>,
    pub settlement_data: Option<SettlementData>,
    pub buyer: Option<Buyer>,
    pub token_data: Option<TokenData>,
    pub version_info: Option<VersionInfoV1>,
}

/// The mathematical content of a [`Store`].
pub struct StoreView {
    pub config: Option<ConfigView>,
    pub seller: Option<SellerView>,
    pub bid_list: Option<BidListView>,
    pub settlement_data: Option<SettlementDataView>,
    pub buyer: Option<BuyerView>,
    pub token_data: Option<TokenDataView>,
    pub version_info: Option<VersionInfoV1View>,
}

impl View for Store {
    type V = StoreView;

    open spec fn view(&self) -> StoreView {
        StoreView {
            config: self.config.deep_view(),
            seller: self.seller.deep_view(),
            bid_list: self.bid_list.deep_view(),
            settlement_data: self.settlement_data.deep_view(),
            buyer: self.buyer.deep_view(),
            token_data: self.token_data.deep_view(),
            version_info: self.version_info.deep_view(),
        }
    }
}

impl StoreView {
    /// The store before anything was written.
    pub open spec fn empty() -> StoreView {
        StoreView {
            config: None,
            seller: None,
            bid_list: None,
            settlement_data: None,
            buyer: None,
            token_data: None,
            version_info: None,
        }
    }

    /// Every row that is present satisfies its own invariant.
    pub open spec fn is_valid(self) -> bool {
        &&& self.config matches Some(config) ==> config.is_valid()
        &&& self.bid_list matches Some(list) ==> list.is_valid()
    }
}

impl Store {
    /// A store with no row written.
    pub fn new() -> (r: Store)
        ensures
            r@ == StoreView::empty(),
    {
        Store {
            config: None,
            seller: None,
            bid_list: None,
            settlement_data: None,
            buyer: None,
            token_data: None,
            version_info: None,
        }
    }
}

/// The error that reading an absent row gives: a storage error that names the row.
pub open spec fn missing_row(row: Seq<char>) -> ContractErrorView {
    ContractErrorView::StorageError { message: row + " not found"@ }
}

/// The error that reading the absent row `row` gives.
pub(crate) fn missing(row: &str) -> (e: ContractError)
    ensures
        e@ == missing_row(row@),
{
    let message = row.to_owned().concat(" not found");
    ContractError::StorageError { message }
}

/// What reading a required row gives: the row, or a storage error that names it.
pub open spec fn required<T>(row: Option<T>, name: Seq<char>) -> Result<T, ContractErrorView> {
    match row {
        Some(value) => Ok(value),
        None => Err(missing_row(name)),
    }
}

/// Reads the configuration, which must have been written.
pub fn retrieve_contract_config(storage: &Store) -> (r: Result<Config, ContractError>)
    ensures
        result_view(r) == required(storage@.config, "config"@),
{
    match &storage.config {
        Some(config) => Ok(config.clone()),
        None => Err(missing("config")),
    }
}

/// Writes the configuration.
pub fn save_contract_config(storage: &mut Store, config: &Config) -> (r: Result<(), ContractError>)
    ensures
        r is Ok,
        final(storage)@ == (StoreView { config: Some(config@), ..old(storage)@ }),
{
    storage.config = Some(config.clone());
    Ok(())
}

/// Reads the bids, which must have been written.
pub fn retrieve_bid_list_state(storage: &Store) -> (r: Result<BidList, ContractError>)
    ensures
        result_view(r) == required(storage@.bid_list, "buyer_list"@),
{
    match &storage.bid_list {
        Some(list) => Ok(list.clone()),
        None => Err(missing("buyer_list")),
    }
}

/// Writes the bids.
pub fn save_bid_list_state(storage: &mut Store, buyer: &BidList) -> (r: Result<(), ContractError>)
    ensures
        r is Ok,
        final(storage)@ == (StoreView { bid_list: Some(buyer@), ..old(storage)@ }),
{
    storage.bid_list = Some(buyer.clone());
    Ok(())
}

/// Reads the seller, if one is registered.
pub fn retrieve_optional_seller_state(storage: &Store) -> (r: Result<Option<Seller>, ContractError>)
    ensures
        result_view(r) == Ok::<Option<SellerView>, ContractErrorView>(storage@.seller),
{
    match &storage.seller {
        Some(seller) => Ok(Some(seller.clone())),
        None => Ok(None),
    }
}

/// Reads the seller, who must be registered.
pub fn retrieve_seller_state(storage: &Store) -> (r: Result<Seller, ContractError>)
    ensures
        result_view(r) == required(storage@.seller, "seller"@),
{
    match &storage.seller {
        Some(seller) => Ok(seller.clone()),
        None => Err(missing("seller")),
    }
}

/// Writes the seller.
pub fn save_seller_state(storage: &mut Store, seller: &Seller) -> (r: Result<(), ContractError>)
    ensures
        r is Ok,
        final(storage)@ == (StoreView { seller: Some(seller@), ..old(storage)@ }),
{
    storage.seller = Some(seller.clone());
    Ok(())
}

/// Reads the record of the settlement, if the trade is settled.
pub fn retrieve_optional_settlement_data_state(storage: &Store) -> (r: Result<
    Option<SettlementData>,
    ContractError,
>)
    ensures
        result_view(r) == Ok::<Option<SettlementDataView>, ContractErrorView>(
            storage@.settlement_data,
        ),
{
    match &storage.settlement_data {
        Some(data) => Ok(Some(data.clone())),
        None => Ok(None),
    }
}

/// Writes the record of the settlement.
pub fn save_settlement_data_state(storage: &mut Store, settlement_data: &SettlementData) -> (r:
    Result<(), ContractError>)
    ensures
        r is Ok,
        final(storage)@ == (StoreView {
            settlement_data: Some(settlement_data@),
            ..old(storage)@
        }),
{
    storage.settlement_data = Some(settlement_data.clone());
    Ok(())
}

/// Reads the bound buyer, if one is bound.
pub fn retrieve_optional_buyer_state(storage: &Store) -> (r: Result<Option<Buyer>, ContractError>)
    ensures
        result_view(r) == Ok::<Option<BuyerView>, ContractErrorView>(storage@.buyer),
{
    match &storage.buyer {
        Some(buyer) => Ok(Some(buyer.clone())),
        None => Ok(None),
    }
}

/// Writes the bound buyer.
pub fn save_buyer_state(storage: &mut Store, buyer: &Buyer) -> (r: Result<(), ContractError>)
    ensures
        r is Ok,
        final(storage)@ == (StoreView { buyer: Some(buyer@), ..old(storage)@ }),
{
    storage.buyer = Some(buyer.clone());
    Ok(())
}

/// Removes the bound buyer.
pub fn clear_buyer_state(storage: &mut Store)
    ensures
        final(storage)@ == (StoreView { buyer: None, ..old(storage)@ }),
{
    storage.buyer = None;
}

/// Writes the record of the mint.
pub fn save_token_data_state(storage: &mut Store, token_data: &TokenData) -> (r: Result<
    (),
    ContractError,
>)
    ensures
        r is Ok,
        final(storage)@ == (StoreView { token_data: Some(token_data@), ..old(storage)@ }),
{
    storage.token_data = Some(token_data.clone());
    Ok(())
}

/// Reads the record of the mint, if tokens were minted.
pub fn retrieve_optional_token_data_state(storage: &Store) -> (r: Result<
    Option<TokenData>,
    ContractError,
>)
    ensures
        result_view(r) == Ok::<Option<TokenDataView>, ContractErrorView>(storage@.token_data),
{
    match &storage.token_data {
        Some(data) => Ok(Some(data.clone())),
        None => Ok(None),
    }
}

/// Reads the record of the mint, which must have been written.
pub fn retrieve_token_data_state(storage: &Store) -> (r: Result<TokenData, ContractError>)
    ensures
        result_view(r) == required(storage@.token_data, "token_data"@),
{
    match &storage.token_data {
        Some(data) => Ok(data.clone()),
        None => Err(missing("token_data")),
    }
}

} // verus!
