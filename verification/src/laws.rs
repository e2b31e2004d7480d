//! What holds of the state machine as a whole, proved from the steps of its commands.

use crate::contract::execute_step;
use crate::error::ContractErrorView;
use crate::execute::accept_bid::accept_bid_step;
use crate::execute::accept_buyer::find_bid;
use crate::execute::add_bidder::{add_bid_step, bids_with, other_bids};
use crate::execute::add_seller::{accepted_value_check, add_seller_step};
use crate::execute::dealer_confirm::{dealer_confirm_step, settlement_denom};
use crate::execute::dealer_reset::dealer_reset_step;
use crate::execute::finalize_pools::finalize_pools_step;
use crate::execute::mint_tokens::mint_tokens_step;
use crate::instantiate::instantiate_contract::instantiate_step;
use crate::lookups::{holdings_of_interest, markers_of_interest};
use crate::msg::{ExecuteMsgView, InstantiateContractMsgView};
use crate::registry::{find_holding, find_marker, RegistryView};
use crate::response::ResponseView;
use crate::storage::state_store::{BidListView, BidView, StoreView};
use crate::util::helpers::{custody_moves, lemma_custody_moves_errors, marker_account, Step};
use vstd::prelude::*;

verus! {

/// The result of a command that is refused with `error`.
pub open spec fn refusal(error: ContractErrorView) -> Result<ResponseView, ContractErrorView> {
    Err(error)
}

/// One command as it reaches the contract: who sends what, in which block,
/// to which instance, and what the registry has answered.
pub struct Invocation {
    pub registry: RegistryView,
    pub contract: Seq<char>,
    pub height: u64,
    pub sender: Seq<char>,
    pub msg: ExecuteMsgView,
}

/// What the command `call` makes of `pre`.
pub open spec fn invoke(pre: StoreView, call: Invocation) -> StoreView {
    execute_step(pre, call.registry, call.contract, call.height, call.sender, call.msg).store
}

/// The store after the commands `calls`, run in their order, each on what
/// the one before it left, whether it succeeded or failed.
pub open spec fn run(pre: StoreView, calls: Seq<Invocation>) -> StoreView
    decreases calls.len(),
{
    if calls.len() == 0 {
        pre
    } else {
        invoke(run(pre, calls.drop_last()), calls.last())
    }
}

/// Once the trade is settled every command fails as an illegal execution,
/// and once the contract is disabled every command fails as an invalid one;
/// either way the store stays as it is.
pub proof fn law_terminal_lockout(pre: StoreView, call: Invocation)
    ensures
        pre.settlement_data is Some ==> execute_step(
            pre,
            call.registry,
            call.contract,
            call.height,
            call.sender,
            call.msg,
        ).result == refusal(
            ContractErrorView::IllegalContractExecution,
        ),
        pre.settlement_data is None && pre.config is Some && pre.config->0.is_disabled
            ==> execute_step(
            pre,
            call.registry,
            call.contract,
            call.height,
            call.sender,
            call.msg,
        ).result == refusal(
            ContractErrorView::InvalidContractExecution,
        ),
        pre.settlement_data is Some || (pre.config is Some && pre.config->0.is_disabled)
            ==> invoke(pre, call) == pre,
{
}

/// A command that fails leaves the store exactly as it found it.
pub proof fn law_failure_changes_nothing(pre: StoreView, call: Invocation)
    ensures
        execute_step(
            pre,
            call.registry,
            call.contract,
            call.height,
            call.sender,
            call.msg,
        ).result is Err ==> invoke(pre, call) == pre,
{
}

/// No command removes the seller, the record of the mint or the record of
/// the settlement, and none changes the admin or the record of the mint.
pub proof fn law_one_shot_rows_stay(pre: StoreView, call: Invocation)
    ensures
        pre.seller is Some ==> invoke(pre, call).seller is Some,
        pre.token_data is Some ==> invoke(pre, call).token_data == pre.token_data,
        pre.settlement_data is Some ==> invoke(pre, call).settlement_data == pre.settlement_data,
        pre.config is Some ==> invoke(pre, call).config is Some && invoke(
            pre,
            call,
        ).config->0.contract_admin == pre.config->0.contract_admin,
{
}

/// What [`law_one_shot_rows_stay`] says of one command holds of any run.
pub proof fn law_one_shot_rows_stay_in_runs(pre: StoreView, calls: Seq<Invocation>)
    ensures
        pre.seller is Some ==> run(pre, calls).seller is Some,
        pre.token_data is Some ==> run(pre, calls).token_data == pre.token_data,
        pre.settlement_data is Some ==> run(pre, calls).settlement_data == pre.settlement_data,
        pre.config is Some ==> run(pre, calls).config is Some && run(
            pre,
            calls,
        ).config->0.contract_admin == pre.config->0.contract_admin,
    decreases calls.len(),
{
    if calls.len() > 0 {
        law_one_shot_rows_stay_in_runs(pre, calls.drop_last());
        law_one_shot_rows_stay(run(pre, calls.drop_last()), calls.last());
    }
}

/// A seller is registered once: after a registration has succeeded, and
/// whatever commands have run since, another registration fails because a
/// seller exists.
pub proof fn law_seller_registers_once(
    pre: StoreView,
    sender: Seq<char>,
    value: Option<u128>,
    hash: Seq<char>,
    calls: Seq<Invocation>,
    again_sender: Seq<char>,
    again_value: Option<u128>,
    again_hash: Seq<char>,
)
    requires
        add_seller_step(pre, sender, value, hash).result is Ok,
    ensures
        add_seller_step(
            run(add_seller_step(pre, sender, value, hash).store, calls),
            again_sender,
            again_value,
            again_hash,
        ).result == refusal(
            ContractErrorView::SellerAlreadyExists,
        ),
{
    law_one_shot_rows_stay_in_runs(add_seller_step(pre, sender, value, hash).store, calls);
}

/// Tokens are minted once: after a mint has succeeded, and whatever commands
/// have run since, another mint by the admin fails because tokens were
/// minted, and names the denomination of the first mint.
pub proof fn law_tokens_mint_once(
    pre: StoreView,
    sender: Seq<char>,
    count: u128,
    denom: Seq<char>,
    calls: Seq<Invocation>,
    again_count: u128,
    again_denom: Seq<char>,
)
    requires
        mint_tokens_step(pre, sender, count, denom).result is Ok,
    ensures
        mint_tokens_step(
            run(mint_tokens_step(pre, sender, count, denom).store, calls),
            sender,
            again_count,
            again_denom,
        ).result == refusal(
            ContractErrorView::TokensAlreadyMinted { token_denom: denom },
        ),
{
    law_one_shot_rows_stay_in_runs(mint_tokens_step(pre, sender, count, denom).store, calls);
}

/// A trade settles once: after a confirmation has succeeded, and whatever
/// commands have run since, every command, another confirmation among them,
/// fails as an illegal execution.
pub proof fn law_trade_settles_once(
    pre: StoreView,
    registry: RegistryView,
    contract: Seq<char>,
    height: u64,
    sender: Seq<char>,
    calls: Seq<Invocation>,
    again: Invocation,
)
    requires
        dealer_confirm_step(pre, registry, contract, height, sender).result is Ok,
    ensures
        execute_step(
            run(dealer_confirm_step(pre, registry, contract, height, sender).store, calls),
            again.registry,
            again.contract,
            again.height,
            again.sender,
            again.msg,
        ).result == refusal(
            ContractErrorView::IllegalContractExecution,
        ),
{
    let settled = dealer_confirm_step(pre, registry, contract, height, sender).store;
    law_one_shot_rows_stay_in_runs(settled, calls);
}

/// The staleness guard of acceptance: where the seller accepts a standing bid
/// under another fingerprint than the bid carries, and a settlement token is
/// at hand, the acceptance fails as a mismatch of the agreement, wherever
/// the bid stands among the bids and whether or not a buyer is bound.
pub proof fn law_stale_agreement_is_refused(
    pre: StoreView,
    contract: Seq<char>,
    sender: Seq<char>,
    bidder: Seq<char>,
    hash: Seq<char>,
)
    requires
        pre.is_seller(sender),
        pre.config is Some,
        pre.token_data is Some || pre.config->0.face_value is Some,
        pre.bid_list is Some,
        find_bid(pre.bid_list->0.bids, bidder) is Some,
        find_bid(pre.bid_list->0.bids, bidder)->0.agreement_terms_hash != hash,
    ensures
        accept_bid_step(pre, contract, sender, bidder, hash) == Step::fail(
            pre,
            ContractErrorView::InvalidAgreementTermsHash,
        ),
{
}

/// The bids of everyone but `who` hold no bid of `who`, so taking the bids of
/// `who` out of them once more changes nothing.
pub proof fn lemma_other_bids_is_idempotent(bids: Seq<BidView>, who: Seq<char>)
    ensures
        other_bids(other_bids(bids, who), who) == other_bids(bids, who),
        other_bids(bids, who).len() <= bids.len(),
        forall|i: int|
            0 <= i < other_bids(bids, who).len() ==> (#[trigger] other_bids(
                bids,
                who,
            )[i]).buyer_address != who,
    decreases bids.len(),
{
    if bids.len() > 0 {
        lemma_other_bids_is_idempotent(bids.drop_last(), who);
        if bids.last().buyer_address != who {
            let rest = other_bids(bids.drop_last(), who);
            assert(rest.push(bids.last()).drop_last() =~= rest);
        }
    }
}

/// Bids are replaced, not added: where a bidder bids and then bids again,
/// the second bid leaves as many bids as the first did, the bids of the
/// others as they were, and the bidder's one bid with the later fingerprint.
pub proof fn law_bid_replaces_bid(
    pre: StoreView,
    sender: Seq<char>,
    first: Seq<char>,
    second: Seq<char>,
)
    requires
        add_bid_step(pre, sender, first).result is Ok,
        add_bid_step(add_bid_step(pre, sender, first).store, sender, second).result is Ok,
    ensures
        ({
            let once = add_bid_step(pre, sender, first).store.bid_list->0.bids;
            let twice = add_bid_step(
                add_bid_step(pre, sender, first).store,
                sender,
                second,
            ).store.bid_list->0.bids;
            &&& twice.len() == once.len()
            &&& twice.drop_last() == once.drop_last()
            &&& twice.last() == (BidView { buyer_address: sender, agreement_terms_hash: second })
            &&& forall|i: int| 0 <= i < twice.len() - 1 ==> (#[trigger] twice[i]).buyer_address != sender
        }),
{
    let bids = pre.bid_list->0.bids;
    let others = other_bids(bids, sender);
    let once = bids_with(bids, sender, first);
    lemma_other_bids_is_idempotent(bids, sender);
    assert(once.drop_last() =~= others);
    assert(other_bids(once, sender) == others);
    let twice = bids_with(once, sender, second);
    assert(twice.drop_last() =~= others);
}

/// A bid list in which no bidder holds two bids stays so when a bidder bids.
pub proof fn law_bids_stay_one_per_bidder(bids: Seq<BidView>, who: Seq<char>, hash: Seq<char>)
    requires
        (BidListView { bids }).is_valid(),
    ensures
        (BidListView { bids: bids_with(bids, who, hash) }).is_valid(),
        (BidListView { bids: other_bids(bids, who) }).is_valid(),
{
    lemma_other_bids_is_idempotent(bids, who);
    lemma_other_bids_keeps_order(bids, who);
    let others = other_bids(bids, who);
    let with = bids_with(bids, who, hash);
    assert forall|i: int, j: int| 0 <= i < j < others.len() implies others[i].buyer_address
        != others[j].buyer_address by {
        let (a, b) = choose|a: int, b: int|
            0 <= a < b < bids.len() && bids[a] == others[i] && bids[b] == others[j];
        let list = BidListView { bids };
        assert(list.bids[a].buyer_address != list.bids[b].buyer_address);
    }
    assert forall|i: int, j: int| 0 <= i < j < with.len() implies with[i].buyer_address
        != with[j].buyer_address by {
        if j < others.len() {
            assert(with[i] == others[i] && with[j] == others[j]);
        } else {
            assert(with[i] == others[i]);
        }
    }
}

/// The bids of the others stand in the order in which they stood before.
pub proof fn lemma_other_bids_keeps_order(bids: Seq<BidView>, who: Seq<char>)
    ensures
        forall|i: int, j: int|
            0 <= i < j < other_bids(bids, who).len() ==> exists|a: int, b: int|
                0 <= a < b < bids.len() && bids[a] == #[trigger] other_bids(bids, who)[i]
                    && bids[b] == #[trigger] other_bids(bids, who)[j],
        forall|i: int|
            0 <= i < other_bids(bids, who).len() ==> exists|a: int|
                0 <= a < bids.len() && bids[a] == #[trigger] other_bids(bids, who)[i],
    decreases bids.len(),
{
    let others = other_bids(bids, who);
    if bids.len() > 0 {
        let front = bids.drop_last();
        let rest = other_bids(front, who);
        lemma_other_bids_keeps_order(front, who);
        assert forall|i: int| 0 <= i < others.len() implies exists|a: int|
            0 <= a < bids.len() && bids[a] == #[trigger] others[i] by {
            if i < rest.len() {
                let a = choose|a: int| 0 <= a < front.len() && front[a] == rest[i];
                assert(bids[a] == others[i]);
            } else {
                assert(bids[bids.len() - 1] == others[i]);
            }
        }
        assert forall|i: int, j: int| 0 <= i < j < others.len() implies exists|a: int, b: int|
            0 <= a < b < bids.len() && bids[a] == #[trigger] others[i] && bids[b]
                == #[trigger] others[j] by {
            if j < rest.len() {
                let (a, b) = choose|a: int, b: int|
                    0 <= a < b < front.len() && front[a] == rest[i] && front[b] == rest[j];
                assert(bids[a] == others[i] && bids[b] == others[j]);
            } else {
                let a = choose|a: int| 0 <= a < front.len() && front[a] == rest[i];
                assert(bids[a] == others[i] && bids[bids.len() - 1] == others[j]);
            }
        }
    }
}

/// Under face-value terms a registered seller's accepted value is a whole
/// number of ticks: the units of the settlement token, times the tick, give
/// the value back.
pub proof fn law_accepted_value_is_whole_ticks(
    pre: StoreView,
    sender: Seq<char>,
    value: Option<u128>,
    hash: Seq<char>,
)
    requires
        add_seller_step(pre, sender, value, hash).result is Ok,
        pre.config->0.face_value is Some,
    ensures
        value is Some,
        pre.config->0.face_value->0.tick_size > 0,
        value->0 % pre.config->0.face_value->0.tick_size == 0,
        (value->0 / pre.config->0.face_value->0.tick_size) * pre.config->0.face_value->0.tick_size
            == value->0,
        pre.config->0.face_value->0.min_face_value_cents <= value->0
            <= pre.config->0.face_value->0.max_face_value_cents,
{
    let terms = pre.config->0.face_value->0;
    assert(accepted_value_check(terms, value) is Ok);
    let v = value->0 as int;
    let t = terms.tick_size as int;
    assert((v / t) * t == v) by (nonlinear_arith)
        requires
            t > 0,
            v % t == 0,
            v >= 0,
    ;
}

/// A reset reopens the trade: after a dealer's reset the seller is still
/// registered, holds no pool and no buyer is bound, so a finalization by the
/// seller is not refused for a pool that is already locked.
pub proof fn law_reset_reopens_finalization(
    pre: StoreView,
    registry: RegistryView,
    contract: Seq<char>,
    dealer: Seq<char>,
    later: RegistryView,
    denoms: Seq<Seq<char>>,
)
    requires
        dealer_reset_step(pre, registry, contract, dealer).result is Ok,
    ensures
        ({
            let after = dealer_reset_step(pre, registry, contract, dealer).store;
            &&& after.seller is Some
            &&& after.seller->0.seller_address == pre.seller->0.seller_address
            &&& after.seller->0.pool_denoms.len() == 0
            &&& after.buyer is None
            &&& after.config == pre.config
            &&& finalize_pools_step(
                after,
                later,
                contract,
                after.seller->0.seller_address,
                denoms,
            ).result != refusal(
                ContractErrorView::PoolAlreadyFinalized,
            )
        }),
{
    let after = dealer_reset_step(pre, registry, contract, dealer).store;
    assert(!after.seller_has_finalized());
    let seller = after.seller->0.seller_address;
    lemma_custody_moves_errors(later, denoms, Some(seller), contract, seller, contract);
}

/// Instantiation leaves a valid configuration and a valid bid list.
pub proof fn law_instantiation_is_valid(
    pre: StoreView,
    sender: Seq<char>,
    msg: InstantiateContractMsgView,
)
    requires
        instantiate_step(pre, sender, msg).result is Ok,
    ensures
        instantiate_step(
            pre,
            sender,
            msg,
        ).store.is_valid(),
{
}

/// Every command keeps the store valid: a store whose configuration and bid
/// list satisfy their invariants is left with ones that do.
pub proof fn law_commands_keep_the_store_valid(pre: StoreView, call: Invocation)
    requires
        pre.is_valid(),
    ensures
        invoke(pre, call).is_valid(),
{
    if pre.bid_list is Some {
        law_bids_stay_one_per_bidder(pre.bid_list->0.bids, call.sender, seq![]);
        match call.msg {
            ExecuteMsgView::AddBid { agreement_terms_hash } => {
                law_bids_stay_one_per_bidder(
                    pre.bid_list->0.bids,
                    call.sender,
                    agreement_terms_hash,
                );
            },
            _ => {},
        }
    }
}

/// What [`law_commands_keep_the_store_valid`] says of one command holds of any run.
pub proof fn law_runs_keep_the_store_valid(pre: StoreView, calls: Seq<Invocation>)
    requires
        pre.is_valid(),
    ensures
        run(pre, calls).is_valid(),
    decreases calls.len(),
{
    if calls.len() > 0 {
        law_runs_keep_the_store_valid(pre, calls.drop_last());
        law_commands_keep_the_store_valid(run(pre, calls.drop_last()), calls.last());
    }
}

/// The registries `a` and `b` gave the same answers to the lookups named.
pub open spec fn agree_on(
    a: RegistryView,
    b: RegistryView,
    holdings: Seq<Seq<char>>,
    markers: Seq<Seq<char>>,
) -> bool {
    &&& forall|i: int|
        0 <= i < holdings.len() ==> find_holding(a.holdings, #[trigger] holdings[i])
            == find_holding(b.holdings, holdings[i])
    &&& forall|i: int|
        0 <= i < markers.len() ==> find_marker(a.markers, #[trigger] markers[i])
            == find_marker(b.markers, markers[i])
}

/// The custody moves for denominations depend on the registry only through
/// its answers on those denominations.
pub proof fn lemma_custody_moves_read_their_holdings(
    a: RegistryView,
    b: RegistryView,
    denoms: Seq<Seq<char>>,
    holder: Option<Seq<char>>,
    contract: Seq<char>,
    from: Seq<char>,
    to: Seq<char>,
)
    requires
        forall|i: int|
            0 <= i < denoms.len() ==> find_holding(a.holdings, #[trigger] denoms[i])
                == find_holding(b.holdings, denoms[i]),
    ensures
        custody_moves(a, denoms, holder, contract, from, to)
            == custody_moves(b, denoms, holder, contract, from, to),
    decreases denoms.len(),
{
    if denoms.len() > 0 {
        let front = denoms.drop_last();
        assert forall|i: int| 0 <= i < front.len() implies find_holding(
            a.holdings,
            #[trigger] front[i],
        ) == find_holding(b.holdings, front[i]) by {
            assert(front[i] == denoms[i]);
        }
        lemma_custody_moves_read_their_holdings(a, b, front, holder, contract, from, to);
        assert(denoms.last() == denoms[denoms.len() - 1]);
    }
}

/// A command reads the registry only through the lookups that are named for
/// it beforehand: two registries that agree on those give the same step.
pub proof fn law_commands_read_the_lookups_named(
    pre: StoreView,
    a: RegistryView,
    b: RegistryView,
    contract: Seq<char>,
    height: u64,
    sender: Seq<char>,
    msg: ExecuteMsgView,
)
    requires
        agree_on(
            a,
            b,
            holdings_of_interest(pre, msg),
            markers_of_interest(pre),
        ),
    ensures
        execute_step(pre, a, contract, height, sender, msg) == execute_step(
            pre,
            b,
            contract,
            height,
            sender,
            msg,
        ),
{
    let holdings = holdings_of_interest(pre, msg);
    let markers = markers_of_interest(pre);
    let pooled = match pre.seller {
        Some(seller) => seller.pool_denoms,
        None => seq![],
    };
    let named = match msg {
        ExecuteMsgView::FinalizePools { pool_denoms } => pool_denoms,
        _ => seq![],
    };
    assert forall|i: int| 0 <= i < pooled.len() implies find_holding(
        a.holdings,
        #[trigger] pooled[i],
    ) == find_holding(b.holdings, pooled[i]) by {
        assert(holdings[named.len() + i] == pooled[i]);
    }
    assert forall|i: int| 0 <= i < named.len() implies find_holding(
        a.holdings,
        #[trigger] named[i],
    ) == find_holding(b.holdings, named[i]) by {
        assert(holdings[i] == named[i]);
    }
    if settlement_denom(pre) is Some {
        assert(markers[0] == settlement_denom(pre)->0);
    }
    if pre.seller is Some {
        let seller = pre.seller->0;
        lemma_custody_moves_read_their_holdings(
            a,
            b,
            pooled,
            None,
            contract,
            contract,
            seller.seller_address,
        );
        if settlement_denom(pre) is Some {
            let denom = settlement_denom(pre)->0;
            match marker_account(a, denom) {
                Ok(marker) => {
                    if marker.base_address is Some {
                        lemma_custody_moves_read_their_holdings(
                            a,
                            b,
                            pooled,
                            None,
                            contract,
                            contract,
                            marker.base_address->0,
                        );
                    }
                },
                Err(_) => {},
            }
        }
    }
    lemma_custody_moves_read_their_holdings(a, b, named, Some(sender), contract, sender, contract);
}

} // verus!
