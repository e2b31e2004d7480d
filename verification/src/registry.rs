//! The asset registry as the state machine sees it: the answers it gave to
//! lookups, as plain values, and the instructions that a command queues for it.

use vstd::prelude::*;

verus! {

/// An amount of one denomination, the amount in the registry's own notation.
#[derive(Debug, PartialEq, Eq)]
pub struct Coin {
    pub denom: String,
    pub amount: String,
}

/// The mathematical content of a [`Coin`].
pub struct CoinView {
    pub denom: Seq<char>,
    pub amount: Seq<char>,
}

impl View for Coin {
    type V = CoinView;

    open spec fn view(&self) -> CoinView {
        CoinView { denom: self.denom@, amount: self.amount@ }
    }
}

impl DeepView for Coin {
    type V = CoinView;

    open spec fn deep_view(&self) -> CoinView {
        self@
    }
}

impl Clone for Coin {
    fn clone(&self) -> (r: Self)
        ensures
            r@ == self@,
    {
        Coin { denom: self.denom.clone(), amount: self.amount.clone() }
    }
}

/// What one address holds of a denomination.
#[derive(Clone, Debug, PartialEq, Eq)]
pub struct Balance {
    pub address: String,
    pub coins: Vec<Coin>,
}

/// The mathematical content of a [`Balance`].
pub struct BalanceView {
    pub address: Seq<char>,
    pub coins: Seq<CoinView>,
}

impl View for Balance {
    type V = BalanceView;

    open spec fn view(&self) -> BalanceView {
        BalanceView { address: self.address@, coins: self.coins.deep_view() }
    }
}

impl DeepView for Balance {
    type V = BalanceView;

    open spec fn deep_view(&self) -> BalanceView {
        self@
    }
}

/// The registry's answer to "who holds this denomination": the holders, or the
/// reason why it could not say.
#[derive(Debug, PartialEq, Eq)]
pub struct Holding {
    pub denom: String,
    pub balances: Result<Vec<Balance>, String>,
}

/// The mathematical content of a [`Holding`].
pub struct HoldingView {
    pub denom: Seq<char>,
    pub balances: Result<Seq<BalanceView>, Seq<char>>,
}

impl View for Holding {
    type V = HoldingView;

    open spec fn view(&self) -> HoldingView {
        HoldingView {
            denom: self.denom@,
            balances: match self.balances {
                Ok(balances) => Ok(balances.deep_view()),
                Err(reason) => Err(reason@),
            },
        }
    }
}

impl DeepView for Holding {
    type V = HoldingView;

    open spec fn deep_view(&self) -> HoldingView {
        self@
    }
}

impl Clone for Holding {
    fn clone(&self) -> (r: Self)
        ensures
            r.denom@ == self.denom@,
    {
        let balances = match &self.balances {
            Ok(balances) => Ok(balances.clone()),
            Err(reason) => Err(reason.clone()),
        };
        Holding { denom: self.denom.clone(), balances }
    }
}

/// The custody account behind a marker.
#[derive(Clone, Debug, PartialEq, Eq)]
pub struct BaseAccount {
    pub address: String,
}

/// What the state machine reads of a marker account.
#[derive(Debug, PartialEq, Eq)]
pub struct MarkerAccount {
    pub base_account: Option<BaseAccount>,
    pub denom: String,
}

/// The mathematical content of a [`MarkerAccount`].
pub struct MarkerAccountView {
    pub base_address: Option<Seq<char>>,
    pub denom: Seq<char>,
}

impl View for MarkerAccount {
    type V = MarkerAccountView;

    open spec fn view(&self) -> MarkerAccountView {
        MarkerAccountView {
            base_address: match self.base_account {
                Some(account) => Some(account.address@),
                None => None,
            },
            denom: self.denom@,
        }
    }
}

impl DeepView for MarkerAccount {
    type V = MarkerAccountView;

    open spec fn deep_view(&self) -> MarkerAccountView {
        self@
    }
}

impl Clone for MarkerAccount {
    fn clone(&self) -> (r: Self)
        ensures
            r@ == self@,
    {
        let base_account = match &self.base_account {
            Some(account) => Some(BaseAccount { address: account.address.clone() }),
            None => None,
        };
        MarkerAccount { base_account, denom: self.denom.clone() }
    }
}

/// The registry's answer to a lookup of a marker by its identifier.
#[derive(Clone, Debug, PartialEq, Eq)]
pub enum MarkerAnswer {
    /// The lookup itself failed, for the reason given.
    Failed(String),
    /// The registry knows no marker under the identifier.
    Absent,
    /// The registry returned an account that is no marker account.
    Unreadable,
    /// The marker account.
    Account(MarkerAccount),
}

/// The mathematical content of a [`MarkerAnswer`].
pub enum MarkerAnswerView {
    Failed(Seq<char>),
    Absent,
    Unreadable,
    Account(MarkerAccountView),
}

impl View for MarkerAnswer {
    type V = MarkerAnswerView;

    open spec fn view(&self) -> MarkerAnswerView {
        match self {
            MarkerAnswer::Failed(reason) => MarkerAnswerView::Failed(reason@),
            MarkerAnswer::Absent => MarkerAnswerView::Absent,
            MarkerAnswer::Unreadable => MarkerAnswerView::Unreadable,
            MarkerAnswer::Account(account) => MarkerAnswerView::Account(account@),
        }
    }
}

/// The registry's answer for one marker identifier.
#[derive(Clone, Debug, PartialEq, Eq)]
pub struct Marker {
    pub id: String,
    pub answer: MarkerAnswer,
}

/// The mathematical content of a [`Marker`].
pub struct MarkerView {
    pub id: Seq<char>,
    pub answer: MarkerAnswerView,
}

impl View for Marker {
    type V = MarkerView;

    open spec fn view(&self) -> MarkerView {
        MarkerView { id: self.id@, answer: self.answer@ }
    }
}

impl DeepView for Marker {
    type V = MarkerView;

    open spec fn deep_view(&self) -> MarkerView {
        self@
    }
}

/// The answers that the asset registry gave, taken before a command runs. Of
/// two answers for one denomination the later one stands.
#[derive(Clone, Debug, PartialEq, Eq)]
pub struct Registry {
    pub holdings: Vec<Holding>,
    pub markers: Vec<Marker>,
}

/// The mathematical content of a [`Registry`].
pub struct RegistryView {
    pub holdings: Seq<HoldingView>,
    pub markers: Seq<MarkerView>,
}

impl View for Registry {
    type V = RegistryView;

    open spec fn view(&self) -> RegistryView {
        RegistryView { holdings: self.holdings.deep_view(), markers: self.markers.deep_view() }
    }
}

/// The answer on `denom` among `holdings`, if there is one.
pub open spec fn find_holding(holdings: Seq<HoldingView>, denom: Seq<char>) -> Option<
    Result<Seq<BalanceView>, Seq<char>>,
>
    decreases holdings.len(),
{
    if holdings.len() == 0 {
        None
    } else if holdings.last().denom == denom {
        Some(holdings.last().balances)
    } else {
        find_holding(holdings.drop_last(), denom)
    }
}

/// The answer on the marker `id` among `markers`, if there is one.
pub open spec fn find_marker(markers: Seq<MarkerView>, id: Seq<char>) -> Option<MarkerAnswerView>
    decreases markers.len(),
{
    if markers.len() == 0 {
        None
    } else if markers.last().id == id {
        Some(markers.last().answer)
    } else {
        find_marker(markers.drop_last(), id)
    }
}

impl Registry {
    /// A registry that has answered nothing.
    pub fn new() -> (r: Registry)
        ensures
            r@.holdings.len() == 0,
            r@.markers.len() == 0,
    {
        Registry { holdings: Vec::new(), markers: Vec::new() }
    }

    /// The position of the answer on `denom` that stands.
    pub fn holding_index(&self, denom: &String) -> (r: Option<usize>)
        ensures
            r is None <==> find_holding(self@.holdings, denom@) is None,
            r matches Some(i) ==> i < self.holdings.len() && find_holding(
                self@.holdings,
                denom@,
            ) == Some(self.holdings[i as int]@.balances),
    {
        let mut i: usize = self.holdings.len();
        assert(self@.holdings.take(i as int) =~= self@.holdings);
        while i > 0
            invariant
                i <= self.holdings.len(),
                find_holding(self@.holdings, denom@) == find_holding(
                    self@.holdings.take(i as int),
                    denom@,
                ),
            decreases i,
        {
            i = i - 1;
            assert(self@.holdings.take(i + 1).drop_last() =~= self@.holdings.take(i as int));
            assert(self@.holdings.take(i + 1).last() == self.holdings[i as int]@);
            if self.holdings[i].denom == *denom {
                return Some(i);
            }
        }
        None
    }

    /// The position of the answer on the marker `id` that stands.
    pub fn marker_index(&self, id: &String) -> (r: Option<usize>)
        ensures
            r is None <==> find_marker(self@.markers, id@) is None,
            r matches Some(i) ==> i < self.markers.len() && find_marker(self@.markers, id@)
                == Some(self.markers[i as int]@.answer),
    {
        let mut i: usize = self.markers.len();
        assert(self@.markers.take(i as int) =~= self@.markers);
        while i > 0
            invariant
                i <= self.markers.len(),
                find_marker(self@.markers, id@) == find_marker(
                    self@.markers.take(i as int),
                    id@,
                ),
            decreases i,
        {
            i = i - 1;
            assert(self@.markers.take(i + 1).drop_last() =~= self@.markers.take(i as int));
            assert(self@.markers.take(i + 1).last() == self.markers[i as int]@);
            if self.markers[i].id == *id {
                return Some(i);
            }
        }
        None
    }
}

/// A right that a marker grants to an address.
#[derive(Clone, Copy, Debug, PartialEq, Eq)]
pub enum Access {
    Mint,
    Burn,
    Deposit,
    Withdraw,
    Delete,
    Admin,
    Transfer,
}

/// The rights that a marker grants to one address.
#[derive(Clone, Debug, PartialEq, Eq)]
pub struct AccessGrant {
    pub address: String,
    pub permissions: Vec<Access>,
}

/// The mathematical content of a [`AccessGrant`].
pub struct AccessGrantView {
    pub address: Seq<char>,
    pub permissions: Seq<Access>,
}

impl View for AccessGrant {
    type V = AccessGrantView;

    open spec fn view(&self) -> AccessGrantView {
        AccessGrantView { address: self.address@, permissions: self.permissions@ }
    }
}

impl DeepView for AccessGrant {
    type V = AccessGrantView;

    open spec fn deep_view(&self) -> AccessGrantView {
        self@
    }
}

/// The stage of a marker's life in which it is created.
#[derive(Clone, Copy, Debug, PartialEq, Eq)]
pub enum MarkerStatus {
    Proposed,
    Finalized,
    Active,
}

/// The kind of asset that a marker tracks.
#[derive(Clone, Copy, Debug, PartialEq, Eq)]
pub enum MarkerType {
    Coin,
    Restricted,
}

/// An instruction to the asset registry. A command queues instructions; the
/// registry carries them out after the command has returned successfully.
#[derive(Clone, Debug, PartialEq, Eq)]
#[allow(inconsistent_fields)]
pub enum MarkerMsg {
    /// Create a marker with an initial supply and access list.
    AddMarker {
        amount: Coin,
        manager: String,
        from_address: String,
        status: MarkerStatus,
        marker_type: MarkerType,
        access_list: Vec<AccessGrant>,
        supply_fixed: bool,
        allow_governance_control: bool,
        allow_forced_transfer: bool,
        required_attributes: Vec<String>,
    },
    /// Close a proposed marker to further change.
    Finalize { denom: String, administrator: String },
    /// Put a finalized marker into circulation.
    Activate { denom: String, administrator: String },
    /// Move coins out of a marker's own holdings to an address.
    Withdraw { denom: String, administrator: String, to_address: String, amount: Vec<Coin> },
    /// Move custody of coins from one address to another.
    Transfer { amount: Coin, administrator: String, from_address: String, to_address: String },
    /// Take all rights on a marker away from an address.
    DeleteAccess { denom: String, administrator: String, removed_address: String },
}

/// The mathematical content of a [`MarkerMsg`].
#[allow(inconsistent_fields)]
pub enum MarkerMsgView {
    AddMarker {
        amount: CoinView,
        manager: Seq<char>,
        from_address: Seq<char>,
        status: MarkerStatus,
        marker_type: MarkerType,
        access_list: Seq<AccessGrantView>,
        supply_fixed: bool,
        allow_governance_control: bool,
        allow_forced_transfer: bool,
        required_attributes: Seq<Seq<char>>,
    },
    Finalize { denom: Seq<char>, administrator: Seq<char> },
    Activate { denom: Seq<char>, administrator: Seq<char> },
    Withdraw {
        denom: Seq<char>,
        administrator: Seq<char>,
        to_address: Seq<char>,
        amount: Seq<CoinView>,
    },
    Transfer {
        amount: CoinView,
        administrator: Seq<char>,
        from_address: Seq<char>,
        to_address: Seq<char>,
    },
    DeleteAccess { denom: Seq<char>, administrator: Seq<char>, removed_address: Seq<char> },
}

impl View for MarkerMsg {
    type V = MarkerMsgView;

    open spec fn view(&self) -> MarkerMsgView {
        match self {
            MarkerMsg::AddMarker {
                amount,
                manager,
                from_address,
                status,
                marker_type,
                access_list,
                supply_fixed,
                allow_governance_control,
                allow_forced_transfer,
                required_attributes,
            } => MarkerMsgView::AddMarker {
                amount: amount@,
                manager: manager@,
                from_address: from_address@,
                status: *status,
                marker_type: *marker_type,
                access_list: access_list.deep_view(),
                supply_fixed: *supply_fixed,
                allow_governance_control: *allow_governance_control,
                allow_forced_transfer: *allow_forced_transfer,
                required_attributes: required_attributes.deep_view(),
            },
            MarkerMsg::Finalize { denom, administrator } => MarkerMsgView::Finalize {
                denom: denom@,
                administrator: administrator@,
            },
            MarkerMsg::Activate { denom, administrator } => MarkerMsgView::Activate {
                denom: denom@,
                administrator: administrator@,
            },
            MarkerMsg::Withdraw { denom, administrator, to_address, amount } => {
                MarkerMsgView::Withdraw {
                    denom: denom@,
                    administrator: administrator@,
                    to_address: to_address@,
                    amount: amount.deep_view(),
                }
            },
            MarkerMsg::Transfer { amount, administrator, from_address, to_address } => {
                MarkerMsgView::Transfer {
                    amount: amount@,
                    administrator: administrator@,
                    from_address: from_address@,
                    to_address: to_address@,
                }
            },
            MarkerMsg::DeleteAccess { denom, administrator, removed_address } => {
                MarkerMsgView::DeleteAccess {
                    denom: denom@,
                    administrator: administrator@,
                    removed_address: removed_address@,
                }
            },
        }
    }
}

impl DeepView for MarkerMsg {
    type V = MarkerMsgView;

    open spec fn deep_view(&self) -> MarkerMsgView {
        self@
    }
}

} // verus!
