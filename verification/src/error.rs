use vstd::prelude::*;

verus! {

/// Every way in which a command or a query can fail.
#[derive(Clone, Debug, PartialEq, Eq)]
pub enum ContractError {
    /// The asset registry could not answer; the text is its reason.
    Std(String),
    /// A row that must exist could not be read.
    StorageError { message: String },
    /// The registry does not report exactly one holder with exactly one coin.
    InvalidDenom { denom: String },
    /// The registry reports more than one holder.
    InvalidDenomOwnership { denom: String },
    /// The settlement token has no custody base account.
    MissingMarkerBaseAccount { denom: String },
    /// No bid stands for the address.
    BidDoesNotExist { address: String },
    /// A bid was already accepted, from the address given.
    BidPreviouslyAccepted { address: String },
    /// The settlement token was already minted, under the denomination given.
    TokensAlreadyMinted { token_denom: String },
    /// Migration from the version given is not supported.
    IllegalMigrationVersion { version: String },
    /// The caller may not do this.
    Unauthorized,
    /// The action belongs to the seller and another address attempted it.
    UnauthorizedAsSeller,
    /// A seller is already registered.
    SellerAlreadyExists,
    /// The address is not on the list of private sellers.
    UnauthorizedPrivateSeller,
    /// The address is not on the list of private buyers.
    UnauthorizedPrivateBuyer,
    /// Only the contract admin may change the configuration.
    UnauthorizedConfigUpdate,
    /// Only the contract admin may mint the settlement token.
    UnauthorizedToMint,
    /// The configuration is frozen once a seller and a buyer are bound.
    IllegalConfigUpdate,
    /// A pool list to finalize must not be empty.
    InvalidFinalizationRequest,
    /// An allow-list must be empty unless its side is private.
    InvalidVisibilityConfig,
    /// The number of tokens to mint must be positive.
    InvalidTokenCount,
    /// The pool list was already finalized.
    PoolAlreadyFinalized,
    /// The pool list was already accepted.
    PoolAlreadyAccepted,
    /// The seller has not finalized a pool list that could be accepted.
    IllegalPoolAcceptanceRequest,
    /// Only the bound buyer may accept the finalized pool list.
    IllegalAcceptingParty,
    /// Confirmation needs a finalized pool list and the buyer's acceptance.
    InvalidConfirmationRequest,
    /// Sellers of a public contract are not listed, so none can be removed.
    InvalidSellerRemovalRequest,
    /// Only a listed seller can remove itself from the list.
    IllegalSellerRemovalRequest,
    /// The registered seller cannot remove itself from the list.
    SellerAlreadyAccepted,
    /// Only assets that the seller holds can be pooled.
    IllegalCoinOwnership,
    /// The pool list cannot be rescinded after the buyer accepted it.
    IllegalRescindRequest,
    /// Only a finalized pool list can be rescinded.
    InvalidRescindRequest,
    /// The list of dealers must not be empty.
    InvalidEmptyDealerConfig,
    /// Only a dealer may confirm the trade.
    IllegalConfirmationRequest,
    /// Only a dealer may reset the trade.
    IllegalDealerResetRequest,
    /// There is no seller whose trade could be reset.
    InvalidDealerResetRequest,
    /// Only the admin may migrate the access lists.
    UnauthorizedAccessListMigrationRequest,
    /// The trade is settled: no command is accepted any more.
    IllegalContractExecution,
    /// The contract is disabled: no command is accepted any more.
    InvalidContractExecution,
    /// The contract cannot be disabled while a pool list is finalized.
    IllegalDisableRequest,
    /// Only the admin or a dealer may disable the contract.
    UnauthorizedDisableRequest,
    /// The agreement fingerprint differs from the one the bid carries.
    InvalidAgreementTermsHash,
    /// The offer fingerprint differs from the seller's current one.
    InvalidOfferHash,
    /// The number of bids has reached its limit.
    MaxPrivateBuyersReached,
    /// An accepted bid cannot be withdrawn.
    IllegalBidRescind,
    /// The caller has no bid to withdraw.
    InvalidBidRescind,
    /// The offer cannot change after the buyer accepted it.
    IllegalOfferHashUpdate,
    /// No settlement token is available to hand to the buyer.
    TokensNotMinted,
    /// The accepted value must be given and be positive.
    AcceptedValueMustBePositive,
    /// The accepted value is below the minimum face value.
    AcceptedValueLessThanMinFaceValue,
    /// The accepted value is above the maximum face value.
    AcceptedValueExceedsMaxFaceValue,
    /// A value is not a multiple of the tick size.
    InvalidTickSizeValueMatch,
    /// The minimum face value must be positive.
    FaceValueMustBePositive,
    /// The maximum face value is below the minimum.
    InvalidMaxFaceValue,
    /// The tick size must be positive.
    TickSizeMustBePositive,
    /// The contract has no face-value terms to update.
    FaceValueNotConfigured,
}

/// The mathematical content of a [`ContractError`].
pub enum ContractErrorView {
    Std(Seq<char>),
    StorageError { message: Seq<char> },
    InvalidDenom { denom: Seq<char> },
    InvalidDenomOwnership { denom: Seq<char> },
    MissingMarkerBaseAccount { denom: Seq<char> },
    BidDoesNotExist { address: Seq<char> },
    BidPreviouslyAccepted { address: Seq<char> },
    TokensAlreadyMinted { token_denom: Seq<char> },
    IllegalMigrationVersion { version: Seq<char> },
    Unauthorized,
    UnauthorizedAsSeller,
    SellerAlreadyExists,
    UnauthorizedPrivateSeller,
    UnauthorizedPrivateBuyer,
    UnauthorizedConfigUpdate,
    UnauthorizedToMint,
    IllegalConfigUpdate,
    InvalidFinalizationRequest,
    InvalidVisibilityConfig,
    InvalidTokenCount,
    PoolAlreadyFinalized,
    PoolAlreadyAccepted,
    IllegalPoolAcceptanceRequest,
    IllegalAcceptingParty,
    InvalidConfirmationRequest,
    InvalidSellerRemovalRequest,
    IllegalSellerRemovalRequest,
    SellerAlreadyAccepted,
    IllegalCoinOwnership,
    IllegalRescindRequest,
    InvalidRescindRequest,
    InvalidEmptyDealerConfig,
    IllegalConfirmationRequest,
    IllegalDealerResetRequest,
    InvalidDealerResetRequest,
    UnauthorizedAccessListMigrationRequest,
    IllegalContractExecution,
    InvalidContractExecution,
    IllegalDisableRequest,
    UnauthorizedDisableRequest,
    InvalidAgreementTermsHash,
    InvalidOfferHash,
    MaxPrivateBuyersReached,
    IllegalBidRescind,
    InvalidBidRescind,
    IllegalOfferHashUpdate,
    TokensNotMinted,
    AcceptedValueMustBePositive,
    AcceptedValueLessThanMinFaceValue,
    AcceptedValueExceedsMaxFaceValue,
    InvalidTickSizeValueMatch,
    FaceValueMustBePositive,
    InvalidMaxFaceValue,
    TickSizeMustBePositive,
    FaceValueNotConfigured,
}

impl View for ContractError {
    type V = ContractErrorView;

    open spec fn view(&self) -> ContractErrorView {
        match self {
            ContractError::Std(reason) => ContractErrorView::Std(reason@),
            ContractError::StorageError { message } => ContractErrorView::StorageError { message: message@ },
            ContractError::InvalidDenom { denom } => ContractErrorView::InvalidDenom { denom: denom@ },
            ContractError::InvalidDenomOwnership { denom } => ContractErrorView::InvalidDenomOwnership { denom: denom@ },
            ContractError::MissingMarkerBaseAccount { denom } => ContractErrorView::MissingMarkerBaseAccount { denom: denom@ },
            ContractError::BidDoesNotExist { address } => ContractErrorView::BidDoesNotExist { address: address@ },
            ContractError::BidPreviouslyAccepted { address } => ContractErrorView::BidPreviouslyAccepted { address: address@ },
            ContractError::TokensAlreadyMinted { token_denom } => ContractErrorView::TokensAlreadyMinted { token_denom: token_denom@ },
            ContractError::IllegalMigrationVersion { version } => ContractErrorView::IllegalMigrationVersion { version: version@ },
            ContractError::Unauthorized => ContractErrorView::Unauthorized,
            ContractError::UnauthorizedAsSeller => ContractErrorView::UnauthorizedAsSeller,
            ContractError::SellerAlreadyExists => ContractErrorView::SellerAlreadyExists,
            ContractError::UnauthorizedPrivateSeller => ContractErrorView::UnauthorizedPrivateSeller,
            ContractError::UnauthorizedPrivateBuyer => ContractErrorView::UnauthorizedPrivateBuyer,
            ContractError::UnauthorizedConfigUpdate => ContractErrorView::UnauthorizedConfigUpdate,
            ContractError::UnauthorizedToMint => ContractErrorView::UnauthorizedToMint,
            ContractError::IllegalConfigUpdate => ContractErrorView::IllegalConfigUpdate,
            ContractError::InvalidFinalizationRequest => ContractErrorView::InvalidFinalizationRequest,
            ContractError::InvalidVisibilityConfig => ContractErrorView::InvalidVisibilityConfig,
            ContractError::InvalidTokenCount => ContractErrorView::InvalidTokenCount,
            ContractError::PoolAlreadyFinalized => ContractErrorView::PoolAlreadyFinalized,
            ContractError::PoolAlreadyAccepted => ContractErrorView::PoolAlreadyAccepted,
            ContractError::IllegalPoolAcceptanceRequest => ContractErrorView::IllegalPoolAcceptanceRequest,
            ContractError::IllegalAcceptingParty => ContractErrorView::IllegalAcceptingParty,
            ContractError::InvalidConfirmationRequest => ContractErrorView::InvalidConfirmationRequest,
            ContractError::InvalidSellerRemovalRequest => ContractErrorView::InvalidSellerRemovalRequest,
            ContractError::IllegalSellerRemovalRequest => ContractErrorView::IllegalSellerRemovalRequest,
            ContractError::SellerAlreadyAccepted => ContractErrorView::SellerAlreadyAccepted,
            ContractError::IllegalCoinOwnership => ContractErrorView::IllegalCoinOwnership,
            ContractError::IllegalRescindRequest => ContractErrorView::IllegalRescindRequest,
            ContractError::InvalidRescindRequest => ContractErrorView::InvalidRescindRequest,
            ContractError::InvalidEmptyDealerConfig => ContractErrorView::InvalidEmptyDealerConfig,
            ContractError::IllegalConfirmationRequest => ContractErrorView::IllegalConfirmationRequest,
            ContractError::IllegalDealerResetRequest => ContractErrorView::IllegalDealerResetRequest,
            ContractError::InvalidDealerResetRequest => ContractErrorView::InvalidDealerResetRequest,
            ContractError::UnauthorizedAccessListMigrationRequest => ContractErrorView::UnauthorizedAccessListMigrationRequest,
            ContractError::IllegalContractExecution => ContractErrorView::IllegalContractExecution,
            ContractError::InvalidContractExecution => ContractErrorView::InvalidContractExecution,
            ContractError::IllegalDisableRequest => ContractErrorView::IllegalDisableRequest,
            ContractError::UnauthorizedDisableRequest => ContractErrorView::UnauthorizedDisableRequest,
            ContractError::InvalidAgreementTermsHash => ContractErrorView::InvalidAgreementTermsHash,
            ContractError::InvalidOfferHash => ContractErrorView::InvalidOfferHash,
            ContractError::MaxPrivateBuyersReached => ContractErrorView::MaxPrivateBuyersReached,
            ContractError::IllegalBidRescind => ContractErrorView::IllegalBidRescind,
            ContractError::InvalidBidRescind => ContractErrorView::InvalidBidRescind,
            ContractError::IllegalOfferHashUpdate => ContractErrorView::IllegalOfferHashUpdate,
            ContractError::TokensNotMinted => ContractErrorView::TokensNotMinted,
            ContractError::AcceptedValueMustBePositive => ContractErrorView::AcceptedValueMustBePositive,
            ContractError::AcceptedValueLessThanMinFaceValue => ContractErrorView::AcceptedValueLessThanMinFaceValue,
            ContractError::AcceptedValueExceedsMaxFaceValue => ContractErrorView::AcceptedValueExceedsMaxFaceValue,
            ContractError::InvalidTickSizeValueMatch => ContractErrorView::InvalidTickSizeValueMatch,
            ContractError::FaceValueMustBePositive => ContractErrorView::FaceValueMustBePositive,
            ContractError::InvalidMaxFaceValue => ContractErrorView::InvalidMaxFaceValue,
            ContractError::TickSizeMustBePositive => ContractErrorView::TickSizeMustBePositive,
            ContractError::FaceValueNotConfigured => ContractErrorView::FaceValueNotConfigured,
        }
    }
}

impl DeepView for ContractError {
    type V = ContractErrorView;

    open spec fn deep_view(&self) -> ContractErrorView {
        self@
    }
}

/// The mathematical content of a command's or a query's result.
pub open spec fn result_view<T: DeepView>(r: Result<T, ContractError>) -> Result<
    T::V,
    ContractErrorView,
> {
    match r {
        Ok(value) => Ok(value.deep_view()),
        Err(e) => Err(e@),
    }
}

/// The mathematical content of the result of a command that returns nothing.
pub open spec fn unit_result_view(r: Result<(), ContractError>) -> Result<(), ContractErrorView> {
    match r {
        Ok(_) => Ok(()),
        Err(e) => Err(e@),
    }
}

} // verus!
