use crate::error::ContractError;
use crate::execute::add_bidder::{add_bid_step, execute_add_bidder};
use crate::response::{MessageInfo, Response};
use crate::storage::state_store::Store;
use vstd::prelude::*;

verus! {

/// Submits the caller's bid: the command of
/// [`execute_add_bidder`](crate::execute::add_bidder::execute_add_bidder) under its other name.
pub fn execute_add_buyer(store: &mut Store, info: MessageInfo, agreement_terms_hash: String) -> (r:
    Result<Response, ContractError>)
    ensures
        add_bid_step(old(store)@, info.sender@, agreement_terms_hash@).describes(final(store)@, r),
{
    execute_add_bidder(store, info, agreement_terms_hash)
}

} // verus!
