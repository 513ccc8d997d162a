//! The safety-deposit validator and the participation printer: the one-time
//! checks that run before the auction starts, the implicit `Initialized` to
//! `Validated` transition, and the one-time population of the participation
//! printing pool.

use vstd::prelude::*;
use crate::config::{AccountKey, PrizeSlot};
use crate::external::BoxInspection;
use crate::manager::{AuctionManager, SafetyDepositValidationTicket};
use crate::state::{AuctionManagerStatus, MetaplexError};

verus! {

/// Do the contents of a box, as inspected, satisfy one declared prize slot?
pub open spec fn slot_content_matches(slot: PrizeSlot, insp: BoxInspection) -> bool {
    match slot.kind {
        crate::config::PrizeKind::TokenTransfer => insp.token_count >= slot.amount,
        crate::config::PrizeKind::FullRightsTransfer => insp.is_master_edition,
        crate::config::PrizeKind::LimitedEditionPrint => insp.is_printing_mint,
    }
}

impl AuctionManager {
    /// Do the contents of box `b` satisfy every slot of the configuration
    /// that references it?
    pub open spec fn box_matches_config(self, b: u8, insp: BoxInspection) -> bool {
        forall|t: int, i: int|
            0 <= t < self.settings.tiers().len() && 0 <= i < self.settings.tiers()[t].len()
                && (#[trigger] self.settings.tiers()[t][i]).box_index == b
                ==> slot_content_matches(self.settings.tiers()[t][i], insp)
    }

    /// The exact condition under which validating box `b` succeeds.
    pub open spec fn validate_would_succeed(
        self,
        b: u8,
        insp: BoxInspection,
        creator: AccountKey,
        creator_whitelisted: bool,
    ) -> bool {
        &&& self.settings.references_box(b)
        &&& !self.validation_tickets@.contains_key(b as u64)
        &&& self.status is Initialized
        &&& insp.has_creator(creator) && creator_whitelisted
        &&& self.box_matches_config(b, insp)
        &&& self.settings.reserves_authority(b)
                ==> !self.original_authority_lookups@.contains_key(insp.metadata)
    }

    /// The error validation of box `b` fails with, by check order. Meaningful
    /// only when `validate_would_succeed` is false.
    pub open spec fn validate_error(
        self,
        b: u8,
        insp: BoxInspection,
        creator: AccountKey,
        creator_whitelisted: bool,
    ) -> MetaplexError {
        if !self.settings.references_box(b) {
            MetaplexError::InvalidWinningConfig
        } else if self.validation_tickets@.contains_key(b as u64) {
            MetaplexError::AlreadyValidated
        } else if !(self.status is Initialized) {
            MetaplexError::InvalidState
        } else if !(insp.has_creator(creator) && creator_whitelisted) {
            MetaplexError::CreatorMismatch
        } else if !self.box_matches_config(b, insp) {
            MetaplexError::PrizeKindMismatch
        } else {
            // a reserved authority would collide with an already recorded one
            MetaplexError::InvalidWinningConfig
        }
    }

    /// Checks `references_box` by inspection.
    pub fn find_box_reference(&self, b: u8) -> (r: bool)
        ensures
            r == self.settings.references_box(b),
    {
        let mut t: usize = 0;
        while t < self.settings.winning_configs.len()
            invariant
                t <= self.settings.tiers().len(),
                forall|u: int, i: int|
                    0 <= u < t && 0 <= i < self.settings.tiers()[u].len()
                        ==> (#[trigger] self.settings.tiers()[u][i]).box_index != b,
            decreases self.settings.tiers().len() - t,
        {
            let items = &self.settings.winning_configs[t].items;
            proof {
                assert(items@ == self.settings.tiers()[t as int]);
            }
            let mut i: usize = 0;
            while i < items.len()
                invariant
                    t < self.settings.tiers().len(),
                    items@ == self.settings.tiers()[t as int],
                    i <= items@.len(),
                    forall|j: int| 0 <= j < i ==> (#[trigger] items@[j]).box_index != b,
                decreases items@.len() - i,
            {
                if items[i].box_index == b {
                    return true;
                }
                i += 1;
            }
            t += 1;
        }
        false
    }

    /// Checks `box_matches_config` by inspection.
    pub fn check_box_matches(&self, b: u8, insp: &BoxInspection) -> (r: bool)
        ensures
            r == self.box_matches_config(b, *insp),
    {
        let mut t: usize = 0;
        while t < self.settings.winning_configs.len()
            invariant
                t <= self.settings.tiers().len(),
                forall|u: int, i: int|
                    0 <= u < t && 0 <= i < self.settings.tiers()[u].len()
                        && (#[trigger] self.settings.tiers()[u][i]).box_index == b
                        ==> slot_content_matches(self.settings.tiers()[u][i], *insp),
            decreases self.settings.tiers().len() - t,
        {
            let items = &self.settings.winning_configs[t].items;
            proof {
                assert(items@ == self.settings.tiers()[t as int]);
            }
            let mut i: usize = 0;
            while i < items.len()
                invariant
                    t < self.settings.tiers().len(),
                    items@ == self.settings.tiers()[t as int],
                    i <= items@.len(),
                    forall|j: int|
                        0 <= j < i && (#[trigger] items@[j]).box_index == b
                            ==> slot_content_matches(items@[j], *insp),
                decreases items@.len() - i,
            {
                let slot = items[i];
                if slot.box_index == b {
                    let ok = match slot.kind {
                        crate::config::PrizeKind::TokenTransfer => insp.token_count >= slot.amount,
                        crate::config::PrizeKind::FullRightsTransfer => insp.is_master_edition,
                        crate::config::PrizeKind::LimitedEditionPrint => insp.is_printing_mint,
                    };
                    if !ok {
                        proof {
                            assert(!slot_content_matches(self.settings.tiers()[t as int][i as int], *insp));
                        }
                        return false;
                    }
                }
                i += 1;
            }
            t += 1;
        }
        true
    }

    /// One-time validation of safety-deposit box `b` against its declared
    /// prize configuration. On success it creates the box's validation
    /// ticket; for prize kinds that need the asset's authority it records the
    /// current metadata authority for later return and takes a hold on the
    /// box; and it performs the implicit transition to `Validated` once every
    /// required box has a ticket. A second attempt on the same box always
    /// fails with `AlreadyValidated` and changes nothing.
    pub fn validate_safety_deposit_box(
        &mut self,
        b: u8,
        insp: &BoxInspection,
        creator: AccountKey,
        creator_whitelisted: bool,
    ) -> (r: Result<(), MetaplexError>)
        requires
            old(self).wf(),
        ensures
            final(self).wf(),
            old(self).status.rank() <= final(self).status.rank(),
            r is Ok <==> old(self).validate_would_succeed(b, *insp, creator, creator_whitelisted),
            r matches Err(e) ==> *final(self) == *old(self)
                && e == old(self).validate_error(b, *insp, creator, creator_whitelisted),
            r is Ok ==> ({
                let reserved = old(self).settings.reserves_authority(b);
                &&& final(self).validation_tickets@ == old(self).validation_tickets@.insert(
                    b as u64,
                    SafetyDepositValidationTicket {
                        metadata: insp.metadata,
                        authority_reserved: reserved,
                    },
                )
                &&& final(self).original_authority_lookups@ == (if reserved {
                    old(self).original_authority_lookups@.insert(insp.metadata, insp.metadata_authority)
                } else {
                    old(self).original_authority_lookups@
                })
                &&& final(self).authority_holds@ == (if reserved {
                    old(self).authority_holds@.insert(b as u64, old(self).settings.authority_uses(b) as u64)
                } else {
                    old(self).authority_holds@
                })
                &&& final(self).status == (if final(self).all_boxes_validated() {
                    AuctionManagerStatus::Validated
                } else {
                    AuctionManagerStatus::Initialized
                })
                &&& final(self).bid_redemption_tickets@ == old(self).bid_redemption_tickets@
                &&& final(self).payout_tickets@ == old(self).payout_tickets@
                &&& final(self).claimed_bids@ == old(self).claimed_bids@
                &&& final(self).fallback_redemptions@ == old(self).fallback_redemptions@
                &&& final(self).escrow == old(self).escrow
                &&& final(self).participation_total == old(self).participation_total
                &&& final(self).printing_pool == old(self).printing_pool
                &&& final(self).printing_pool_populated == old(self).printing_pool_populated
                &&& final(self).settings == old(self).settings
                &&& final(self).authority == old(self).authority
            }),
    {
        if !self.find_box_reference(b) {
            return Err(MetaplexError::InvalidWinningConfig);
        }
        if self.validation_tickets.contains_key(&(b as u64)) {
            return Err(MetaplexError::AlreadyValidated);
        }
        if !matches!(self.status, AuctionManagerStatus::Initialized) {
            return Err(MetaplexError::InvalidState);
        }
        if !(insp.find_creator(creator) && creator_whitelisted) {
            return Err(MetaplexError::CreatorMismatch);
        }
        if !self.check_box_matches(b, insp) {
            return Err(MetaplexError::PrizeKindMismatch);
        }
        let uses = self.settings.count_authority_uses(b);
        let reserved = uses > 0;
        if reserved && self.original_authority_lookups.contains_key(&insp.metadata) {
            return Err(MetaplexError::InvalidWinningConfig);
        }
        self.validation_tickets.insert(
            b as u64,
            SafetyDepositValidationTicket { metadata: insp.metadata, authority_reserved: reserved },
        );
        if reserved {
            self.original_authority_lookups.insert(insp.metadata, insp.metadata_authority);
            self.authority_holds.insert(b as u64, uses);
            self.authorities_outstanding = self.authority_holds.len();
        }
        if self.check_all_boxes_validated() {
            self.status = AuctionManagerStatus::Validated;
        }
        Ok(())
    }

    /// The exact condition under which participation validation succeeds.
    pub open spec fn validate_participation_would_succeed(
        self,
        caller: AccountKey,
        insp: BoxInspection,
        creator: AccountKey,
        creator_whitelisted: bool,
    ) -> bool {
        &&& self.settings.participation_config is Some
        &&& !self.settings.references_box(self.settings.participation_config->0.box_index)
        &&& !self.validation_tickets@.contains_key(
            self.settings.participation_config->0.box_index as u64,
        )
        &&& self.status is Initialized
        &&& caller == self.authority
        &&& insp.has_creator(creator) && creator_whitelisted
        &&& insp.is_master_edition
    }

    /// The error participation validation fails with, by check order.
    pub open spec fn validate_participation_error(
        self,
        caller: AccountKey,
        insp: BoxInspection,
        creator: AccountKey,
        creator_whitelisted: bool,
    ) -> MetaplexError {
        if self.settings.participation_config is None {
            MetaplexError::ParticipationNotConfigured
        } else if self.settings.references_box(self.settings.participation_config->0.box_index) {
            MetaplexError::InvalidWinningConfig
        } else if self.validation_tickets@.contains_key(
            self.settings.participation_config->0.box_index as u64,
        ) {
            MetaplexError::AlreadyValidated
        } else if !(self.status is Initialized) {
            MetaplexError::InvalidState
        } else if caller != self.authority {
            MetaplexError::WrongAuthority
        } else if !(insp.has_creator(creator) && creator_whitelisted) {
            MetaplexError::CreatorMismatch
        } else {
            MetaplexError::PrizeKindMismatch
        }
    }

    /// One-time validation of the participation prize's own safety-deposit
    /// box: the open-edition master asset is checked at its own entry point
    /// because its mechanics differ from a ranked box. Creates the box's
    /// validation ticket (no authority is reserved here; the printing pool is
    /// authorized separately) and performs the implicit transition to
    /// `Validated` once every required box has a ticket.
    pub fn validate_participation(
        &mut self,
        caller: AccountKey,
        insp: &BoxInspection,
        creator: AccountKey,
        creator_whitelisted: bool,
    ) -> (r: Result<(), MetaplexError>)
        requires
            old(self).wf(),
        ensures
            final(self).wf(),
            old(self).status.rank() <= final(self).status.rank(),
            r is Ok <==> old(self).validate_participation_would_succeed(
                caller, *insp, creator, creator_whitelisted,
            ),
            r matches Err(e) ==> *final(self) == *old(self)
                && e == old(self).validate_participation_error(caller, *insp, creator, creator_whitelisted),
            r is Ok ==> ({
                &&& final(self).validation_tickets@ == old(self).validation_tickets@.insert(
                    old(self).settings.participation_config->0.box_index as u64,
                    SafetyDepositValidationTicket { metadata: insp.metadata, authority_reserved: false },
                )
                &&& final(self).status == (if final(self).all_boxes_validated() {
                    AuctionManagerStatus::Validated
                } else {
                    AuctionManagerStatus::Initialized
                })
                &&& final(self).original_authority_lookups@ == old(self).original_authority_lookups@
                &&& final(self).authority_holds@ == old(self).authority_holds@
                &&& final(self).authorities_outstanding == old(self).authorities_outstanding
                &&& final(self).bid_redemption_tickets@ == old(self).bid_redemption_tickets@
                &&& final(self).payout_tickets@ == old(self).payout_tickets@
                &&& final(self).claimed_bids@ == old(self).claimed_bids@
                &&& final(self).fallback_redemptions@ == old(self).fallback_redemptions@
                &&& final(self).escrow == old(self).escrow
                &&& final(self).participation_total == old(self).participation_total
                &&& final(self).printing_pool == old(self).printing_pool
                &&& final(self).printing_pool_populated == old(self).printing_pool_populated
                &&& final(self).settings == old(self).settings
                &&& final(self).authority == old(self).authority
            }),
    {
        let pc = match &self.settings.participation_config {
            Some(pc) => *pc,
            None => {
                return Err(MetaplexError::ParticipationNotConfigured);
            },
        };
        if self.find_box_reference(pc.box_index) {
            return Err(MetaplexError::InvalidWinningConfig);
        }
        if self.validation_tickets.contains_key(&(pc.box_index as u64)) {
            return Err(MetaplexError::AlreadyValidated);
        }
        if !matches!(self.status, AuctionManagerStatus::Initialized) {
            return Err(MetaplexError::InvalidState);
        }
        if caller != self.authority {
            return Err(MetaplexError::WrongAuthority);
        }
        if !(insp.find_creator(creator) && creator_whitelisted) {
            return Err(MetaplexError::CreatorMismatch);
        }
        if !insp.is_master_edition {
            return Err(MetaplexError::PrizeKindMismatch);
        }
        self.validation_tickets.insert(
            pc.box_index as u64,
            SafetyDepositValidationTicket { metadata: insp.metadata, authority_reserved: false },
        );
        if self.check_all_boxes_validated() {
            self.status = AuctionManagerStatus::Validated;
        }
        Ok(())
    }

    /// The exact condition under which populating the printing pool succeeds.
    pub open spec fn populate_would_succeed(self, one_time_mint_supply: u64, authority_held: bool) -> bool {
        &&& self.settings.participation_config is Some
        &&& self.status is Initialized || self.status is Validated || self.status is Running
        &&& !self.printing_pool_populated
        &&& one_time_mint_supply == 1
        &&& authority_held
    }

    /// The error pool population fails with, by check order.
    pub open spec fn populate_error(self, one_time_mint_supply: u64, authority_held: bool) -> MetaplexError {
        if self.settings.participation_config is None {
            MetaplexError::ParticipationNotConfigured
        } else if !(self.status is Initialized || self.status is Validated || self.status is Running) {
            MetaplexError::InvalidState
        } else if self.printing_pool_populated || one_time_mint_supply != 1 {
            MetaplexError::AlreadyPopulated
        } else {
            MetaplexError::MintAuthorityMismatch
        }
    }

    /// One-time conversion of the single-use authorization token into the
    /// participation printing pool. The one-time-use mint's supply must still
    /// be exactly one (it is consumed by this call), the auction manager must
    /// hold the expected temporary mint authority, and the pool must not
    /// already have been populated; population can happen any time up to and
    /// including the running auction.
    pub fn populate_participation_printing_account(
        &mut self,
        one_time_mint_supply: u64,
        authority_held: bool,
        token_count: u64,
    ) -> (r: Result<(), MetaplexError>)
        requires
            old(self).wf(),
        ensures
            final(self).wf(),
            old(self).status.rank() <= final(self).status.rank(),
            r is Ok <==> old(self).populate_would_succeed(one_time_mint_supply, authority_held),
            r matches Err(e) ==> *final(self) == *old(self)
                && e == old(self).populate_error(one_time_mint_supply, authority_held),
            r is Ok ==> ({
                &&& final(self).printing_pool == token_count
                &&& final(self).printing_pool_populated
                &&& final(self).status == old(self).status
                &&& final(self).validation_tickets@ == old(self).validation_tickets@
                &&& final(self).original_authority_lookups@ == old(self).original_authority_lookups@
                &&& final(self).authority_holds@ == old(self).authority_holds@
                &&& final(self).authorities_outstanding == old(self).authorities_outstanding
                &&& final(self).bid_redemption_tickets@ == old(self).bid_redemption_tickets@
                &&& final(self).payout_tickets@ == old(self).payout_tickets@
                &&& final(self).claimed_bids@ == old(self).claimed_bids@
                &&& final(self).fallback_redemptions@ == old(self).fallback_redemptions@
                &&& final(self).escrow == old(self).escrow
                &&& final(self).participation_total == old(self).participation_total
                &&& final(self).settings == old(self).settings
                &&& final(self).authority == old(self).authority
            }),
    {
        if self.settings.participation_config.is_none() {
            return Err(MetaplexError::ParticipationNotConfigured);
        }
        if !matches!(
            self.status,
            AuctionManagerStatus::Initialized | AuctionManagerStatus::Validated
                | AuctionManagerStatus::Running
        ) {
            return Err(MetaplexError::InvalidState);
        }
        if self.printing_pool_populated || one_time_mint_supply != 1 {
            return Err(MetaplexError::AlreadyPopulated);
        }
        if !authority_held {
            return Err(MetaplexError::MintAuthorityMismatch);
        }
        self.printing_pool = token_count;
        self.printing_pool_populated = true;
        Ok(())
    }
}

} // verus!
