use crate::storage::state_store::{
    Bid, BidView, Buyer, BuyerView, Config, ConfigView, FaceValue, FaceValueView, Seller,
    SellerView, SettlementData, SettlementDataView, TokenData, TokenDataView,
};
use crate::version_info::{VersionInfoV1, VersionInfoV1View};
use vstd::prelude::*;

verus! {

/// The message that sets a contract instance up.
#[derive(Clone, Debug, PartialEq, Eq)]
pub struct InstantiateContractMsg {
    /// Whether only listed addresses may register as the seller.
    pub use_private_sellers: bool,
    /// Whether only listed addresses may bid.
    pub use_private_buyers: bool,
    /// The addresses that may register as the seller; empty unless sellers are private.
    pub allowed_sellers: Vec<String>,
    /// The addresses that may bid; empty unless buyers are private.
    pub allowed_buyers: Vec<String>,
    /// The number of bids that may stand at once where buyers are private.
    pub max_buyer_count: i32,
    /// The addresses that may confirm and reset the trade.
    pub dealers: Vec<String>,
    /// The face-value terms, where the settlement token is created on acceptance.
    pub face_value: Option<FaceValue>,
}

/// The mathematical content of a [`InstantiateContractMsg`].
pub struct InstantiateContractMsgView {
    pub use_private_sellers: bool,
    pub use_private_buyers: bool,
    pub allowed_sellers: Seq<Seq<char>>,
    pub allowed_buyers: Seq<Seq<char>>,
    pub max_buyer_count: i32,
    pub dealers: Seq<Seq<char>>,
    pub face_value: Option<FaceValueView>,
}

impl View for InstantiateContractMsg {
    type V = InstantiateContractMsgView;

    open spec fn view(&self) -> InstantiateContractMsgView {
        InstantiateContractMsgView {
            use_private_sellers: self.use_private_sellers,
            use_private_buyers: self.use_private_buyers,
            allowed_sellers: self.allowed_sellers.deep_view(),
            allowed_buyers: self.allowed_buyers.deep_view(),
            max_buyer_count: self.max_buyer_count,
            dealers: self.dealers.deep_view(),
            face_value: self.face_value.deep_view(),
        }
    }
}

/// The commands of a contract instance.
#[derive(Clone, Debug, PartialEq, Eq)]
pub enum ExecuteMsg {
    /// The caller registers as the seller.
    AddSeller { accepted_value_cents: Option<u128>, offer_hash: String },
    /// The seller replaces the fingerprint of its offer.
    UpdateSellerOfferHash { offer_hash: String },
    /// A listed seller takes itself off the list of private sellers.
    RemoveAsSeller {},
    /// The seller locks a pool of assets.
    FinalizePools { pool_denoms: Vec<String> },
    /// The seller takes the locked pool back.
    RescindFinalizedPools {},
    /// A prospective buyer submits or replaces its bid.
    AddBid { agreement_terms_hash: String },
    /// A bidder withdraws its bid.
    RescindBid {},
    /// The seller accepts a bid.
    AcceptBid { bidder_address: String, agreement_terms_hash: String },
    /// The bound buyer accepts the locked pool.
    AcceptFinalizedPools { offer_hash: String },
    /// The admin replaces the list of private sellers.
    UpdateAllowedSellers { allowed_sellers: Vec<String> },
    /// The admin replaces the list of private buyers.
    UpdateAllowedBuyers { allowed_buyers: Vec<String> },
    /// The admin replaces the bounds of the face-value terms.
    UpdateFaceValueCents {
        min_face_value_cents: u128,
        max_face_value_cents: u128,
        tick_size: u128,
    },
    /// The admin records the one-time mint of the settlement token.
    MintTokens { token_count: u128, token_denom: String },
    /// A dealer settles the trade.
    DealerConfirm {},
    /// A dealer returns the trade to its start.
    DealerReset {},
    /// The admin or a dealer disables the contract.
    ContractDisable {},
}

/// The mathematical content of a [`ExecuteMsg`].
pub enum ExecuteMsgView {
    AddSeller { accepted_value_cents: Option<u128>, offer_hash: Seq<char> },
    UpdateSellerOfferHash { offer_hash: Seq<char> },
    RemoveAsSeller,
    FinalizePools { pool_denoms: Seq<Seq<char>> },
    RescindFinalizedPools,
    AddBid { agreement_terms_hash: Seq<char> },
    RescindBid,
    AcceptBid { bidder_address: Seq<char>, agreement_terms_hash: Seq<char> },
    AcceptFinalizedPools { offer_hash: Seq<char> },
    UpdateAllowedSellers { allowed_sellers: Seq<Seq<char>> },
    UpdateAllowedBuyers { allowed_buyers: Seq<Seq<char>> },
    UpdateFaceValueCents { min_face_value_cents: u128, max_face_value_cents: u128, tick_size: u128 },
    MintTokens { token_count: u128, token_denom: Seq<char> },
    DealerConfirm,
    DealerReset,
    ContractDisable,
}

impl View for ExecuteMsg {
    type V = ExecuteMsgView;

    open spec fn view(&self) -> ExecuteMsgView {
        match self {
            ExecuteMsg::AddSeller { accepted_value_cents, offer_hash } => ExecuteMsgView::AddSeller {
                accepted_value_cents: *accepted_value_cents,
                offer_hash: offer_hash@,
            },
            ExecuteMsg::UpdateSellerOfferHash { offer_hash } => {
                ExecuteMsgView::UpdateSellerOfferHash { offer_hash: offer_hash@ }
            },
            ExecuteMsg::RemoveAsSeller {} => ExecuteMsgView::RemoveAsSeller,
            ExecuteMsg::FinalizePools { pool_denoms } => ExecuteMsgView::FinalizePools {
                pool_denoms: pool_denoms.deep_view(),
            },
            ExecuteMsg::RescindFinalizedPools {} => ExecuteMsgView::RescindFinalizedPools,
            ExecuteMsg::AddBid { agreement_terms_hash } => ExecuteMsgView::AddBid {
                agreement_terms_hash: agreement_terms_hash@,
            },
            ExecuteMsg::RescindBid {} => ExecuteMsgView::RescindBid,
            ExecuteMsg::AcceptBid { bidder_address, agreement_terms_hash } => {
                ExecuteMsgView::AcceptBid {
                    bidder_address: bidder_address@,
                    agreement_terms_hash: agreement_terms_hash@,
                }
            },
            ExecuteMsg::AcceptFinalizedPools { offer_hash } => ExecuteMsgView::AcceptFinalizedPools {
                offer_hash: offer_hash@,
            },
            ExecuteMsg::UpdateAllowedSellers { allowed_sellers } => {
                ExecuteMsgView::UpdateAllowedSellers { allowed_sellers: allowed_sellers.deep_view() }
            },
            ExecuteMsg::UpdateAllowedBuyers { allowed_buyers } => {
                ExecuteMsgView::UpdateAllowedBuyers { allowed_buyers: allowed_buyers.deep_view() }
            },
            ExecuteMsg::UpdateFaceValueCents {
                min_face_value_cents,
                max_face_value_cents,
                tick_size,
            } => ExecuteMsgView::UpdateFaceValueCents {
                min_face_value_cents: *min_face_value_cents,
                max_face_value_cents: *max_face_value_cents,
                tick_size: *tick_size,
            },
            ExecuteMsg::MintTokens { token_count, token_denom } => ExecuteMsgView::MintTokens {
                token_count: *token_count,
                token_denom: token_denom@,
            },
            ExecuteMsg::DealerConfirm {} => ExecuteMsgView::DealerConfirm,
            ExecuteMsg::DealerReset {} => ExecuteMsgView::DealerReset,
            ExecuteMsg::ContractDisable {} => ExecuteMsgView::ContractDisable,
        }
    }
}

/// The queries of a contract instance.
#[derive(Clone, Copy, Debug, PartialEq, Eq)]
pub enum QueryMsg {
    /// Reads the whole state.
    GetContractState {},
}

/// The migrations of a contract instance.
#[derive(Clone, Copy, Debug, PartialEq, Eq)]
pub enum MigrateMsg {
    /// Moves the instance to the version of this code.
    ContractUpgrade {},
}

/// The whole state of a contract instance at one point in time.
#[derive(Clone, Debug, PartialEq, Eq)]
pub struct GetContractStateResponse {
    pub bids: Vec<Bid>,
    pub seller: Option<Seller>,
    pub config: Config,
    pub settlement_data: Option<SettlementData>,
    pub token_data: Option<TokenData>,
    pub version_info: VersionInfoV1,
    pub buyer: Option<Buyer>,
}

/// The mathematical content of a [`GetContractStateResponse`].
pub struct GetContractStateResponseView {
    pub bids: Seq<BidView>,
    pub seller: Option<SellerView>,
    pub config: ConfigView,
    pub settlement_data: Option<SettlementDataView>,
    pub token_data: Option<TokenDataView>,
    pub version_info: VersionInfoV1View,
    pub buyer: Option<BuyerView>,
}

impl View for GetContractStateResponse {
    type V = GetContractStateResponseView;

    open spec fn view(&self) -> GetContractStateResponseView {
        GetContractStateResponseView {
            bids: self.bids.deep_view(),
            seller: self.seller.deep_view(),
            config: self.config@,
            settlement_data: self.settlement_data.deep_view(),
            token_data: self.token_data.deep_view(),
            version_info: self.version_info@,
            buyer: self.buyer.deep_view(),
        }
    }
}

impl DeepView for GetContractStateResponse {
    type V = GetContractStateResponseView;

    open spec fn deep_view(&self) -> GetContractStateResponseView {
        self@
    }
}

/// The address of a metadata object: its bytes, their text form, and its kind.
#[derive(Debug, PartialEq, Eq)]
pub struct MetadataAddress {
    pub bech32: String,
    pub bytes: Vec<u8>,
    pub key_type: KeyType,
}

impl Clone for MetadataAddress {
    fn clone(&self) -> (r: Self)
        ensures
            r.bech32@ == self.bech32@,
            r.bytes@ == self.bytes@,
            r.key_type == self.key_type,
    {
        MetadataAddress {
            bech32: self.bech32.clone(),
            bytes: self.bytes.clone(),
            key_type: self.key_type,
        }
    }
}

/// The kind of metadata object an address refers to.
#[derive(Clone, Copy, Debug, PartialEq, Eq)]
pub enum KeyType {
    Scope,
    Session,
    Record,
    ContractSpecification,
    ScopeSpecification,
    RecordSpecification,
}

impl KeyType {
    /// The human readable prefix under which addresses of this kind are written.
    pub open spec fn prefix(self) -> Seq<char> {
        match self {
            KeyType::Scope => "scope"@,
            KeyType::Session => "session"@,
            KeyType::Record => "record"@,
            KeyType::ContractSpecification => "contractspec"@,
            KeyType::ScopeSpecification => "scopespec"@,
            KeyType::RecordSpecification => "recspec"@,
        }
    }

    /// The byte that leads the bytes of an address of this kind.
    pub open spec fn tag(self) -> u8 {
        match self {
            KeyType::Scope => 0u8,
            KeyType::Session => 1u8,
            KeyType::Record => 2u8,
            KeyType::ContractSpecification => 3u8,
            KeyType::ScopeSpecification => 4u8,
            KeyType::RecordSpecification => 5u8,
        }
    }

    /// The human readable prefix under which addresses of this kind are written.
    pub fn to_str(&self) -> (r: &str)
        ensures
            r@ == self.prefix(),
    {
        match self {
            KeyType::Scope => "scope",
            KeyType::Session => "session",
            KeyType::Record => "record",
            KeyType::ContractSpecification => "contractspec",
            KeyType::ScopeSpecification => "scopespec",
            KeyType::RecordSpecification => "recspec",
        }
    }

    /// The byte that leads the bytes of an address of this kind.
    pub fn to_byte(&self) -> (r: u8)
        ensures
            r == self.tag(),
    {
        match self {
            KeyType::Scope => 0,
            KeyType::Session => 1,
            KeyType::Record => 2,
            KeyType::ContractSpecification => 3,
            KeyType::ScopeSpecification => 4,
            KeyType::RecordSpecification => 5,
        }
    }
}

} // verus!
