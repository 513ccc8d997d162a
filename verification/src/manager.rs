//! The auction-manager record itself: its durable ticket ledger, its
//! well-formedness invariant, and the explicit lifecycle transitions
//! (creation, start-auction, decommission).

use vstd::prelude::*;
use std::collections::HashMap;
use crate::config::{AccountKey, AuctionManagerSettings};
use crate::state::{AuctionManagerStatus, MetaplexError};

verus! {

/// One-time marker that a safety-deposit box passed validation. Its mere
/// existence is the "already validated" flag; it is never mutated.
#[derive(Clone, Copy, PartialEq, Eq, Structural, Debug)]
pub struct SafetyDepositValidationTicket {
    /// The asset-metadata account of the validated box's asset.
    pub metadata: AccountKey,
    /// Whether validation reserved the asset's authority for the manager.
    pub authority_reserved: bool,
}

/// Per-bidder redemption marker. The two prize categories are independent
/// booleans: a bidder may redeem a won prize and the participation prize, but
/// each at most once.
#[derive(Clone, Copy, PartialEq, Eq, Structural, Debug)]
pub struct BidRedemptionTicket {
    pub main_redeemed: bool,
    pub participation_redeemed: bool,
}

/// The central record of this engine. All durable state — the lifecycle
/// status, the configuration, and every idempotency ticket — hangs off this
/// one value, and every operation re-derives its preconditions from it.
#[derive(Debug)]
pub struct AuctionManager {
    /// Lifecycle status; only ever advances, see `AuctionManagerStatus`.
    pub status: AuctionManagerStatus,
    /// Account that controls start-auction, decommission and the fallback.
    pub authority: AccountKey,
    /// The vault holding the safety-deposit boxes.
    pub vault: AccountKey,
    /// The external auction this manager settles.
    pub auction: AccountKey,
    /// The store this manager belongs to.
    pub store: AccountKey,
    /// The escrow account payments accumulate in.
    pub accept_payment: AccountKey,
    /// The winning-config tiers and the participation configuration.
    pub settings: AuctionManagerSettings,
    /// One ticket per validated safety-deposit box, keyed by box index.
    pub validation_tickets: HashMap<u64, SafetyDepositValidationTicket>,
    /// Metadata authority before validation reassigned it, keyed by the
    /// metadata account; consumed when the authority is returned or forwarded.
    pub original_authority_lookups: HashMap<u64, AccountKey>,
    /// One ticket per bidder, keyed by bidder account, created lazily on the
    /// bidder's first redemption.
    pub bid_redemption_tickets: HashMap<u64, BidRedemptionTicket>,
    /// Cumulative amount paid per (prize slot or participation, box, creator)
    /// tuple, keyed by the packed tuple.
    pub payout_tickets: HashMap<u64, u64>,
    /// Winning-bid funds already drawn into escrow, keyed by bidder account.
    pub claimed_bids: HashMap<u64, u64>,
    /// One marker per prize slot the auctioneer reclaimed through the
    /// fallback path, keyed by the packed (tier, item) position.
    pub fallback_redemptions: HashMap<u64, bool>,
    /// Remaining redemptions before the reserved authority of a box can be
    /// returned, keyed by box index; an entry leaves the map when its
    /// authority is released, so the map's size is the count of boxes still
    /// holding a reassigned authority.
    pub authority_holds: HashMap<u64, u64>,
    /// Count of boxes still holding a reassigned authority; always equal to
    /// the size of `authority_holds`, and the completion detector for the
    /// `Disbursing` to `Finished` transition.
    pub authorities_outstanding: usize,
    /// Balance of the accept-payment escrow account.
    pub escrow: u64,
    /// Sum of all fixed-price participation payments received.
    pub participation_total: u64,
    /// Printing tokens left in the participation pool.
    pub printing_pool: u64,
    /// Whether the one-time pool population already happened.
    pub printing_pool_populated: bool,
}

impl AuctionManager {
    /// Has every safety-deposit box required by the configuration a
    /// validation ticket (the participation box included)? This computed
    /// predicate, not a stored flag, is what the implicit `Initialized` to
    /// `Validated` transition is derived from.
    pub open spec fn all_boxes_validated(self) -> bool {
        &&& forall|t: int, i: int|
            0 <= t < self.settings.tiers().len() && 0 <= i < self.settings.tiers()[t].len()
                ==> self.validation_tickets@.contains_key(
                    (#[trigger] self.settings.tiers()[t][i]).box_index as u64,
                )
        &&& self.settings.participation_config matches Some(pc)
                ==> self.validation_tickets@.contains_key(pc.box_index as u64)
    }

    /// The well-formedness invariant every operation preserves.
    pub open spec fn wf(self) -> bool {
        &&& self.settings.well_formed()
        // the stored completion counter is exactly the number of boxes still
        // holding a reassigned authority
        &&& self.authorities_outstanding as int == self.authority_holds@.dom().len()
        // a hold is spent one redemption at a time and leaves when spent
        &&& forall|b: u64| self.authority_holds@.contains_key(b) ==> #[trigger] self.authority_holds@[b] >= 1
        // a held box was validated, and the authority recorded for return
        &&& forall|b: u64| #[trigger] self.authority_holds@.contains_key(b)
                ==> self.validation_tickets@.contains_key(b)
                    && self.validation_tickets@[b].authority_reserved
                    && self.original_authority_lookups@.contains_key(self.validation_tickets@[b].metadata)
        // held boxes never share a metadata account, so releasing one hold
        // cannot clear another hold's recorded authority
        &&& forall|b1: u64, b2: u64|
            #[trigger] self.authority_holds@.contains_key(b1)
                && #[trigger] self.authority_holds@.contains_key(b2) && b1 != b2
                ==> self.validation_tickets@[b1].metadata != self.validation_tickets@[b2].metadata
        // forward statuses are only reached once validation completed
        &&& (self.status is Validated || self.status is Running || self.status is Disbursing
                || self.status is Finished) ==> self.all_boxes_validated()
        // `Finished` means no authority remains to be returned
        &&& self.status is Finished ==> self.authority_holds@.dom().len() == 0
    }

    /// Everything except the lifecycle status is unchanged between `pre` and
    /// `post`.
    pub open spec fn same_but_status(pre: AuctionManager, post: AuctionManager) -> bool {
        &&& post.authority == pre.authority
        &&& post.vault == pre.vault
        &&& post.auction == pre.auction
        &&& post.store == pre.store
        &&& post.accept_payment == pre.accept_payment
        &&& post.settings == pre.settings
        &&& post.validation_tickets@ == pre.validation_tickets@
        &&& post.original_authority_lookups@ == pre.original_authority_lookups@
        &&& post.bid_redemption_tickets@ == pre.bid_redemption_tickets@
        &&& post.payout_tickets@ == pre.payout_tickets@
        &&& post.claimed_bids@ == pre.claimed_bids@
        &&& post.fallback_redemptions@ == pre.fallback_redemptions@
        &&& post.authority_holds@ == pre.authority_holds@
        &&& post.authorities_outstanding == pre.authorities_outstanding
        &&& post.escrow == pre.escrow
        &&& post.participation_total == pre.participation_total
        &&& post.printing_pool == pre.printing_pool
        &&& post.printing_pool_populated == pre.printing_pool_populated
    }

    /// Creates an auction manager in its initial status with an empty ticket
    /// ledger. Rejects a malformed configuration. A configuration that
    /// requires no box to be validated starts out `Validated`, since the
    /// implicit transition's condition already holds.
    pub fn new(
        authority: AccountKey,
        vault: AccountKey,
        auction: AccountKey,
        store: AccountKey,
        accept_payment: AccountKey,
        settings: AuctionManagerSettings,
    ) -> (r: Result<AuctionManager, MetaplexError>)
        ensures
            r is Ok <==> settings.well_formed(),
            r matches Err(e) ==> e is InvalidWinningConfig,
            r matches Ok(m) ==> {
                &&& m.wf()
                &&& m.authority == authority
                &&& m.vault == vault
                &&& m.auction == auction
                &&& m.store == store
                &&& m.accept_payment == accept_payment
                &&& m.settings == settings
                &&& m.status is Initialized || m.status is Validated
                &&& m.status is Validated <==> m.all_boxes_validated()
                &&& m.validation_tickets@ == Map::<u64, SafetyDepositValidationTicket>::empty()
                &&& m.original_authority_lookups@ == Map::<u64, AccountKey>::empty()
                &&& m.bid_redemption_tickets@ == Map::<u64, BidRedemptionTicket>::empty()
                &&& m.payout_tickets@ == Map::<u64, u64>::empty()
                &&& m.claimed_bids@ == Map::<u64, u64>::empty()
                &&& m.fallback_redemptions@ == Map::<u64, bool>::empty()
                &&& m.authority_holds@ == Map::<u64, u64>::empty()
                &&& m.authorities_outstanding == 0
                &&& m.escrow == 0
                &&& m.participation_total == 0
                &&& m.printing_pool == 0
                &&& !m.printing_pool_populated
            },
    {
        if !settings.check_well_formed() {
            return Err(MetaplexError::InvalidWinningConfig);
        }
        let mut m = AuctionManager {
            status: AuctionManagerStatus::Initialized,
            authority,
            vault,
            auction,
            store,
            accept_payment,
            settings,
            validation_tickets: HashMap::new(),
            original_authority_lookups: HashMap::new(),
            bid_redemption_tickets: HashMap::new(),
            payout_tickets: HashMap::new(),
            claimed_bids: HashMap::new(),
            fallback_redemptions: HashMap::new(),
            authority_holds: HashMap::new(),
            authorities_outstanding: 0,
            escrow: 0,
            participation_total: 0,
            printing_pool: 0,
            printing_pool_populated: false,
        };
        proof {
            assert(m.authority_holds@.dom() =~= Set::<u64>::empty());
        }
        if m.check_all_boxes_validated() {
            m.status = AuctionManagerStatus::Validated;
        }
        Ok(m)
    }

    /// Checks the computed validation-completion predicate by inspection.
    pub fn check_all_boxes_validated(&self) -> (r: bool)
        ensures
            r == self.all_boxes_validated(),
    {
        let mut t: usize = 0;
        while t < self.settings.winning_configs.len()
            invariant
                t <= self.settings.tiers().len(),
                forall|u: int, i: int|
                    0 <= u < t && 0 <= i < self.settings.tiers()[u].len()
                        ==> self.validation_tickets@.contains_key(
                            (#[trigger] self.settings.tiers()[u][i]).box_index as u64,
                        ),
            decreases self.settings.tiers().len() - t,
        {
            let items = &self.settings.winning_configs[t].items;
            proof {
                assert(items@ == self.settings.tiers()[t as int]);
            }
            let mut i: usize = 0;
            while i < items.len()
                invariant
                    t < self.settings.tiers().len(),
                    items@ == self.settings.tiers()[t as int],
                    i <= items@.len(),
                    forall|j: int|
                        0 <= j < i ==> self.validation_tickets@.contains_key(
                            (#[trigger] items@[j]).box_index as u64,
                        ),
                decreases items@.len() - i,
            {
                if !self.validation_tickets.contains_key(&(items[i].box_index as u64)) {
                    return false;
                }
                i += 1;
            }
            t += 1;
        }
        match &self.settings.participation_config {
            Some(pc) => self.validation_tickets.contains_key(&(pc.box_index as u64)),
            None => true,
        }
    }

    /// Explicit `Validated` to `Running` transition: the authority starts the
    /// auction's bidding clock. Rejects any other caller, and any status but
    /// `Validated`.
    pub fn start_auction(&mut self, caller: AccountKey) -> (r: Result<(), MetaplexError>)
        requires
            old(self).wf(),
        ensures
            final(self).wf(),
            old(self).status.rank() <= final(self).status.rank(),
            r is Ok <==> caller == old(self).authority && old(self).status is Validated,
            r matches Err(e) ==> *final(self) == *old(self) && e == (
                if caller != old(self).authority {
                    MetaplexError::WrongAuthority
                } else {
                    MetaplexError::InvalidState
                }),
            r is Ok ==> final(self).status is Running
                && AuctionManager::same_but_status(*old(self), *final(self)),
    {
        if caller != self.authority {
            return Err(MetaplexError::WrongAuthority);
        }
        if !matches!(self.status, AuctionManagerStatus::Validated) {
            return Err(MetaplexError::InvalidState);
        }
        self.status = AuctionManagerStatus::Running;
        Ok(())
    }

    /// Explicit escape hatch when validation cannot complete: the authority
    /// moves the manager straight from `Initialized` to the terminal
    /// `Decommissioned` status, after which prizes can leave only through the
    /// auctioneer fallback path.
    pub fn decommission(&mut self, caller: AccountKey) -> (r: Result<(), MetaplexError>)
        requires
            old(self).wf(),
        ensures
            final(self).wf(),
            old(self).status.rank() <= final(self).status.rank(),
            r is Ok <==> caller == old(self).authority && old(self).status is Initialized,
            r matches Err(e) ==> *final(self) == *old(self) && e == (
                if caller != old(self).authority {
                    MetaplexError::WrongAuthority
                } else {
                    MetaplexError::InvalidState
                }),
            r is Ok ==> final(self).status is Decommissioned
                && AuctionManager::same_but_status(*old(self), *final(self)),
    {
        if caller != self.authority {
            return Err(MetaplexError::WrongAuthority);
        }
        if !matches!(self.status, AuctionManagerStatus::Initialized) {
            return Err(MetaplexError::InvalidState);
        }
        self.status = AuctionManagerStatus::Decommissioned;
        Ok(())
    }
}

} // verus!
