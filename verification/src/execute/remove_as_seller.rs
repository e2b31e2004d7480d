use crate::error::{ContractError, ContractErrorView};
use crate::response::{Attribute, AttributeView, MessageInfo, Response, ResponseView};
use crate::storage::state_store::{missing, missing_row, ConfigView, Store, StoreView};
use crate::util::helpers::Step;
use vstd::prelude::*;

verus! {

/// `i` is the first position at which `who` stands in `list`.
pub open spec fn is_first_position(list: Seq<Seq<char>>, who: Seq<char>, i: int) -> bool {
    &&& 0 <= i < list.len()
    &&& list[i] == who
    &&& forall|j: int| 0 <= j < i ==> list[j] != who
}

/// `list` without the first occurrence of `who`.
pub open spec fn without_first(list: Seq<Seq<char>>, who: Seq<char>) -> Seq<Seq<char>> {
    list.remove(choose|i: int| is_first_position(list, who, i))
}

/// The first position at which `who` stands in `list`, if it does.
pub fn first_position(list: &Vec<String>, who: &String) -> (r: Option<usize>)
    ensures
        r is None <==> !list.deep_view().contains(who@),
        r matches Some(i) ==> is_first_position(list.deep_view(), who@, i as int),
{
    let mut i: usize = 0;
    while i < list.len()
        invariant
            i <= list.len(),
            forall|j: int| 0 <= j < i ==> list.deep_view()[j] != who@,
        decreases list.len() - i,
    {
        assert(list.deep_view()[i as int] == list[i as int]@);
        if list[i] == *who {
            return Some(i);
        }
        i = i + 1;
    }
    None
}

/// A listed seller takes itself off the list of private sellers. This is for
/// private sellers only, for one that is listed, and not for the one that has
/// registered as the seller.
pub open spec fn remove_as_seller_step(pre: StoreView, sender: Seq<char>) -> Step {
    if pre.config is None {
        Step::fail(pre, missing_row("config"@))
    } else if !pre.config->0.use_private_sellers {
        Step::fail(pre, ContractErrorView::InvalidSellerRemovalRequest)
    } else if !pre.config->0.allowed_sellers.contains(sender) {
        Step::fail(pre, ContractErrorView::IllegalSellerRemovalRequest)
    } else if pre.is_seller(sender) {
        Step::fail(pre, ContractErrorView::SellerAlreadyAccepted)
    } else {
        let config = ConfigView {
            allowed_sellers: without_first(pre.config->0.allowed_sellers, sender),
            ..pre.config->0
        };
        Step::done(
            StoreView { config: Some(config), ..pre },
            ResponseView::reporting(seq![], AttributeView::ContractConfig(config)),
        )
    }
}

/// Runs a listed seller's removal of itself; see [`remove_as_seller_step`].
pub fn execute_remove_as_seller(store: &mut Store, info: MessageInfo) -> (r: Result<
    Response,
    ContractError,
>)
    ensures
        remove_as_seller_step(old(store)@, info.sender@).describes(final(store)@, r),
{
    let mut updated_config = match &store.config {
        None => {
            return Err(missing("config"));
        },
        Some(config) => config.clone(),
    };
    if !updated_config.use_private_sellers {
        return Err(ContractError::InvalidSellerRemovalRequest);
    }
    let index_to_remove = match first_position(&updated_config.allowed_sellers, &info.sender) {
        None => {
            return Err(ContractError::IllegalSellerRemovalRequest);
        },
        Some(index) => index,
    };
    match &store.seller {
        None => {},
        Some(seller) => {
            if seller.seller_address == info.sender {
                return Err(ContractError::SellerAlreadyAccepted);
            }
        },
    }
    let ghost listed = updated_config.allowed_sellers.deep_view();
    updated_config.allowed_sellers.remove(index_to_remove);
    proof {
        let chosen = choose|i: int| is_first_position(listed, info.sender@, i);
        assert(is_first_position(listed, info.sender@, index_to_remove as int));
        assert(chosen == index_to_remove as int);
        assert(updated_config.allowed_sellers.deep_view() =~= listed.remove(index_to_remove as int));
    }
    let reported = updated_config.clone();
    store.config = Some(updated_config);
    let response = Response::new().add_attribute(Attribute::ContractConfig(reported));
    proof {
        let step = remove_as_seller_step(old(store)@, info.sender@);
        assert(response@.messages =~= step.result->Ok_0.messages);
        assert(response@.attributes =~= step.result->Ok_0.attributes);
    }
    Ok(response)
}

} // verus!
