//! The global guarantees of the engine, each proved from the operations'
//! contracts alone: at-most-once validation and redemption, independence of
//! the two redemption categories, forward-only status movement, repeatable
//! payouts that never overpay, and the fallback's confinement to unclaimed
//! slots.

use vstd::prelude::*;
use crate::config::AccountKey;
use crate::external::{AuctionView, BoxInspection, Creator};
use crate::instruction::{EmptyPaymentAccountArgs, ProxyCallAddress};
use crate::manager::{AuctionManager, BidRedemptionTicket};
use crate::payout::{creator_part, entitlement_of, lemma_payout_key_injective, payout_delta};
use crate::redemption::{slot_key, status_after_redemption};
use crate::state::{AuctionManagerStatus, MetaplexError};

verus! {

/// Law: validation succeeds at most once per box. After any successful
/// validation of box `b` — which leaves a ticket for `b` in the ledger and
/// the configuration untouched — every further attempt on `b`, whatever its
/// inspection or creator proof, fails with the already-validated error.
pub proof fn lemma_validation_at_most_once(
    pre: AuctionManager,
    post: AuctionManager,
    b: u8,
    insp1: BoxInspection,
    creator1: AccountKey,
    whitelisted1: bool,
    insp2: BoxInspection,
    creator2: AccountKey,
    whitelisted2: bool,
)
    requires
        pre.validate_would_succeed(b, insp1, creator1, whitelisted1),
        post.validation_tickets@.contains_key(b as u64),
        post.settings == pre.settings,
    ensures
        !post.validate_would_succeed(b, insp2, creator2, whitelisted2),
        post.validate_error(b, insp2, creator2, whitelisted2) == MetaplexError::AlreadyValidated,
{
}

/// Law: the main-prize category is redeemable at most once per bidder. After
/// a successful main-prize redemption marked the bidder's ticket, no further
/// standard or full-rights redemption can succeed for that bidder, and
/// whenever the bidder still holds a concluded winning claim the attempt
/// fails with the already-redeemed error.
pub proof fn lemma_main_redemption_at_most_once(
    post: AuctionManager,
    a: AuctionView,
    bidder: AccountKey,
)
    requires
        post.main_prize_redeemed(bidder),
    ensures
        !post.redeem_bid_would_succeed(a, bidder),
        !post.redeem_frt_would_succeed(a, bidder),
        a.concluded && a.is_winner(bidder) ==> post.redeem_bid_error(a, bidder)
            == MetaplexError::AlreadyRedeemed,
        a.concluded && a.is_winner(bidder) ==> post.redeem_frt_error(a, bidder)
            == MetaplexError::AlreadyRedeemed,
{
}

/// Law: the participation category is redeemable at most once per bidder.
/// After a successful participation redemption marked the bidder's ticket,
/// no further participation redemption can succeed for that bidder, and
/// whenever the auction is concluded, a participation prize is configured
/// and the bidder holds a claim, the attempt fails with the already-redeemed
/// error.
pub proof fn lemma_participation_redemption_at_most_once(
    post: AuctionManager,
    a: AuctionView,
    bidder: AccountKey,
    paid: u64,
)
    requires
        post.participation_prize_redeemed(bidder),
    ensures
        !post.redeem_participation_would_succeed(a, bidder, paid),
        a.concluded && post.settings.participation_config is Some && a.has_claim(bidder)
            ==> post.redeem_participation_error(a, bidder, paid) == MetaplexError::AlreadyRedeemed,
{
}

/// Law: the two redemption categories are independent. Redeeming the main
/// prize leaves the bidder's participation flag as it was, so a pending
/// participation redemption still succeeds afterwards, as long as the
/// manager has not finished in between (the main redemption that returns the
/// last reserved authority closes the disbursing window).
pub proof fn lemma_categories_independent_main_first(
    pre: AuctionManager,
    post: AuctionManager,
    a: AuctionView,
    bidder: AccountKey,
    paid: u64,
)
    requires
        pre.redeem_participation_would_succeed(a, bidder, paid),
        post.bid_redemption_tickets@ == pre.bid_redemption_tickets@.insert(
            bidder,
            BidRedemptionTicket {
                main_redeemed: true,
                participation_redeemed: pre.participation_prize_redeemed(bidder),
            },
        ),
        post.status is Running || post.status is Disbursing,
        post.settings == pre.settings,
        post.printing_pool == pre.printing_pool,
        post.escrow == pre.escrow,
        post.participation_total == pre.participation_total,
    ensures
        post.redeem_participation_would_succeed(a, bidder, paid),
{
}

/// Law: the two redemption categories are independent, the other way round.
/// Redeeming the participation prize leaves the bidder's main flag as it
/// was, so a pending main-prize redemption still succeeds afterwards, under
/// the same proviso that the manager is still running or disbursing.
pub proof fn lemma_categories_independent_participation_first(
    pre: AuctionManager,
    post: AuctionManager,
    a: AuctionView,
    bidder: AccountKey,
)
    requires
        pre.redeem_bid_would_succeed(a, bidder),
        post.bid_redemption_tickets@ == pre.bid_redemption_tickets@.insert(
            bidder,
            BidRedemptionTicket {
                main_redeemed: pre.main_prize_redeemed(bidder),
                participation_redeemed: true,
            },
        ),
        post.status is Running || post.status is Disbursing,
        post.settings == pre.settings,
        post.authority_holds@ == pre.authority_holds@,
    ensures
        post.redeem_bid_would_succeed(a, bidder),
{
}

/// Law: the status order is forward-only and its terminal points absorb.
/// The shared status-transition function never moves a status backward in
/// rank, and never moves `Finished` or `Decommissioned` at all; together
/// with each operation's contract (a failing call changes nothing, and every
/// successful one advances the stored status by this function or keeps it)
/// the stored status never moves backward.
pub proof fn lemma_status_monotone(s: AuctionManagerStatus, holds_empty: bool)
    ensures
        s.rank() <= status_after_redemption(s, holds_empty).rank(),
        s.is_terminal() ==> status_after_redemption(s, holds_empty) == s,
{
}

/// Law: payouts are repeatable no-ops once complete. A successful payout
/// leaves the slot's ticket covering the whole entitlement, so an identical
/// call against the resulting ledger still succeeds and pays exactly zero.
pub proof fn lemma_payout_repeat_pays_nothing(
    pre: AuctionManager,
    post: AuctionManager,
    a: AuctionView,
    args: EmptyPaymentAccountArgs,
    creators: Seq<Creator>,
    owner: AccountKey,
)
    requires
        pre.empty_payment_would_succeed(a, args, creators, owner),
        post.payout_tickets@ == pre.payout_tickets@.insert(
            pre.payout_slot_key(args),
            ({
                let ent = entitlement_of(
                    pre.payout_base(a, args),
                    AuctionManager::payout_share(creators, args.creator_index),
                );
                let already = pre.payout_already(pre.payout_slot_key(args));
                (if ent > already { ent } else { already }) as u64
            }),
        ),
        0 <= entitlement_of(
            pre.payout_base(a, args),
            AuctionManager::payout_share(creators, args.creator_index),
        ) <= u64::MAX,
        post.status == pre.status,
        post.settings == pre.settings,
        post.participation_total == pre.participation_total,
        post.authority == pre.authority,
    ensures
        post.empty_payment_would_succeed(a, args, creators, owner),
        payout_delta(
            entitlement_of(
                post.payout_base(a, args),
                AuctionManager::payout_share(creators, args.creator_index),
            ),
            post.payout_already(post.payout_slot_key(args)),
        ) == 0,
{
    assert(post.payout_slot_key(args) == pre.payout_slot_key(args));
    assert(post.payout_base(a, args) == pre.payout_base(a, args));
}

/// Law: cumulative payouts never exceed the entitlement. One payout step
/// moves the ticket from `already` to exactly the entitlement whenever it
/// was below it, and never above it.
pub proof fn lemma_payout_never_exceeds_entitlement(ent: int, already: int)
    requires
        0 <= already <= ent,
    ensures
        already + payout_delta(ent, already) == ent,
{
}

/// Law: different creator indices of the same slot draw on disjoint payout
/// tickets, so their shares are accounted separately and one creator's
/// payout can never consume another's.
pub proof fn lemma_payout_creators_disjoint(
    m: AuctionManager,
    args1: EmptyPaymentAccountArgs,
    args2: EmptyPaymentAccountArgs,
)
    requires
        m.settings.well_formed(),
        m.payout_slot_ok(args1),
        m.payout_slot_ok(args2),
        args1.winning_config_index == args2.winning_config_index,
        args1.winning_config_item_index == args2.winning_config_item_index,
        creator_part(args1.creator_index) != creator_part(args2.creator_index),
    ensures
        m.payout_slot_key(args1) != m.payout_slot_key(args2),
{
    if m.payout_slot_key(args1) == m.payout_slot_key(args2) {
        match (args1.winning_config_index, args1.winning_config_item_index) {
            (Some(t), Some(i)) => {
                lemma_payout_key_injective(
                    t as int,
                    i as int,
                    m.settings.tiers()[t as int][i as int].box_index as int,
                    creator_part(args1.creator_index),
                    t as int,
                    i as int,
                    m.settings.tiers()[t as int][i as int].box_index as int,
                    creator_part(args2.creator_index),
                );
            },
            _ => {
                lemma_payout_key_injective(
                    256,
                    0,
                    m.settings.participation_config->0.box_index as int,
                    creator_part(args1.creator_index),
                    256,
                    0,
                    m.settings.participation_config->0.box_index as int,
                    creator_part(args2.creator_index),
                );
            },
        }
    }
}

/// Law: the auctioneer fallback reaches only unclaimed slots, and only once
/// the manager is disbursable. Whenever the fallback can succeed, the
/// manager's status is `Disbursing`, `Finished` or `Decommissioned`, the
/// slot's rank lies beyond every winning claim, and in particular no winning
/// bidder's rank is the one being reclaimed.
pub proof fn lemma_fallback_only_unclaimed_slots(
    m: AuctionManager,
    a: AuctionView,
    caller: AccountKey,
    tier: u8,
    item: u8,
    proxy: ProxyCallAddress,
)
    requires
        a.well_formed(),
        m.redeem_unused_would_succeed(a, caller, tier, item, proxy),
    ensures
        m.status.is_disbursable(),
        !((tier as int) < a.winners@.len()),
        forall|bidder: AccountKey| a.is_winner(bidder) ==> #[trigger] a.rank_of(bidder) != tier as int,
{
    assert forall|bidder: AccountKey| a.is_winner(bidder) implies #[trigger] a.rank_of(bidder)
        != tier as int by {
        let k = a.rank_of(bidder);
        assert(0 <= k < a.winners@.len() && a.winners@[k] == bidder);
    }
}

/// Law: each fallback slot is reclaimable at most once. A successful
/// fallback call marks its slot's ticket, and a marked slot can never be
/// reclaimed again; whenever the position still names a configured slot of
/// an authorized, disbursable call with no winner at its rank, the repeat
/// fails with the already-redeemed error.
pub proof fn lemma_fallback_at_most_once(
    post: AuctionManager,
    a: AuctionView,
    caller: AccountKey,
    tier: u8,
    item: u8,
    proxy1: ProxyCallAddress,
    proxy2: ProxyCallAddress,
)
    requires
        post.fallback_redemptions@.contains_key(slot_key(tier as int, item as int)),
    ensures
        !post.redeem_unused_would_succeed(a, caller, tier, item, proxy2),
        (caller == post.authority && post.status.is_disbursable()
            && (tier as int) < post.settings.tiers().len()
            && (item as int) < post.settings.tiers()[tier as int].len()
            && !((tier as int) < a.winners@.len()))
            ==> post.redeem_unused_error(a, caller, tier, item, proxy2)
                == MetaplexError::AlreadyRedeemed,
{
}

} // verus!
