//! What a command may ask the asset registry, said before the command runs.

use crate::execute::dealer_confirm::settlement_denom;
use crate::msg::{ExecuteMsg, ExecuteMsgView};
use crate::storage::state_store::{Store, StoreView};
use crate::util::text::clone_texts;
use vstd::prelude::*;

verus! {

/// The lookups whose answers a command may need.
#[derive(Clone, Debug, PartialEq, Eq)]
pub struct Lookups {
    /// The denominations whose holders may be asked for.
    pub holdings: Vec<String>,
    /// The markers that may be asked for.
    pub markers: Vec<String>,
}

/// The denominations whose holders `msg` may ask for on `store`: those that
/// it is about to pool, then those that the seller has pooled.
pub open spec fn holdings_of_interest(store: StoreView, msg: ExecuteMsgView) -> Seq<Seq<char>> {
    let named = match msg {
        ExecuteMsgView::FinalizePools { pool_denoms } => pool_denoms,
        _ => seq![],
    };
    let pooled = match store.seller {
        Some(seller) => seller.pool_denoms,
        None => seq![],
    };
    named + pooled
}

/// The markers that a command may ask for on `store`: the settlement token,
/// where its denomination is known.
pub open spec fn markers_of_interest(store: StoreView) -> Seq<Seq<char>> {
    match settlement_denom(store) {
        Some(denom) => seq![denom],
        None => seq![],
    }
}

/// Says which lookups the command `msg` may need on `store`, so that their
/// answers can be at hand when it runs.
pub fn required_lookups(store: &Store, msg: &ExecuteMsg) -> (r: Lookups)
    ensures
        r.holdings.deep_view() == holdings_of_interest(store@, msg@),
        r.markers.deep_view() == markers_of_interest(store@),
{
    let mut holdings: Vec<String> = match msg {
        ExecuteMsg::FinalizePools { pool_denoms } => clone_texts(pool_denoms),
        _ => Vec::new(),
    };
    let ghost named = holdings.deep_view();
    assert(named =~= match msg@ {
        ExecuteMsgView::FinalizePools { pool_denoms } => pool_denoms,
        _ => seq![],
    });
    match &store.seller {
        Some(seller) => {
            let mut pooled = clone_texts(&seller.pool_denoms);
            let ghost added = pooled.deep_view();
            holdings.append(&mut pooled);
            assert(holdings.deep_view() =~= named + added);
        },
        None => {
            assert(holdings.deep_view() =~= named + seq![]);
        },
    }
    let mut markers: Vec<String> = Vec::new();
    match &store.token_data {
        Some(data) => {
            markers.push(data.token_denom.clone());
        },
        None => match &store.config {
            Some(config) => match &config.face_value {
                Some(terms) => {
                    markers.push(terms.token_denom.clone());
                },
                None => {},
            },
            None => {},
        },
    }
    assert(markers.deep_view() =~= markers_of_interest(store@));
    Lookups { holdings, markers }
}

} // verus!
