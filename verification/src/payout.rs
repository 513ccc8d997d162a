//! The payout engine: drawing claimed winning bids into escrow, and the
//! permissionless, repeatable-safe disbursement of escrowed funds to creators
//! (or the auctioneer) per prize slot, with payout tickets guaranteeing that
//! no share is ever paid twice.

use vstd::prelude::*;
use vstd::arithmetic::div_mod::{lemma_div_is_ordered, lemma_div_multiples_vanish};
use vstd::arithmetic::mul::lemma_mul_inequality;
use crate::config::AccountKey;
use crate::external::{AuctionView, Creator};
use crate::instruction::EmptyPaymentAccountArgs;
use crate::manager::AuctionManager;
use crate::state::{AuctionManagerStatus, MetaplexError};

verus! {

/// A creator's royalty entitlement out of an attributable amount: the amount
/// times the share in basis points.
pub open spec fn entitlement_of(base: int, share: int) -> int {
    base * share / 10000
}

/// What one payout call pays: the gap between the entitlement and what the
/// slot's ticket has already accounted, and nothing when the ticket already
/// covers the entitlement.
pub open spec fn payout_delta(ent: int, already: int) -> int {
    if ent > already {
        ent - already
    } else {
        0
    }
}

/// Every share is a plausible basis-point value; keeps entitlements within
/// the attributable amount.
pub open spec fn shares_bounded(creators: Seq<Creator>) -> bool {
    forall|i: int| 0 <= i < creators.len() ==> (#[trigger] creators[i]).share_bps <= 10000
}

/// The packed ledger key of one payout ticket. `tag` is the tier index, or
/// 256 for the participation prize; `creator` is the creator index, or 256
/// when the auctioneer is paid. All parts stay below their field's width, so
/// distinct tuples give distinct keys.
pub open spec fn payout_key(tag: int, item: int, bx: int, creator: int) -> u64 {
    (tag * 0x10000000000 + item * 0x1000000 + bx * 0x10000 + creator) as u64
}

/// The packing of a payout key is injective on in-range parts.
pub proof fn lemma_payout_key_injective(
    t1: int, i1: int, b1: int, c1: int,
    t2: int, i2: int, b2: int, c2: int,
)
    requires
        0 <= t1 <= 256, 0 <= i1 <= 255, 0 <= b1 <= 255, 0 <= c1 <= 256,
        0 <= t2 <= 256, 0 <= i2 <= 255, 0 <= b2 <= 255, 0 <= c2 <= 256,
        payout_key(t1, i1, b1, c1) == payout_key(t2, i2, b2, c2),
    ensures
        t1 == t2 && i1 == i2 && b1 == b2 && c1 == c2,
{
}

/// The creator part of a payout key.
pub open spec fn creator_part(ci: Option<u8>) -> int {
    match ci {
        Some(c) => c as int,
        None => 256,
    }
}

impl AuctionManager {
    /// Does the argument tuple name a configured prize slot (or the
    /// configured participation prize)?
    pub open spec fn payout_slot_ok(self, args: EmptyPaymentAccountArgs) -> bool {
        match (args.winning_config_index, args.winning_config_item_index) {
            (Some(t), Some(i)) => (t as int) < self.settings.tiers().len()
                && (i as int) < self.settings.tiers()[t as int].len(),
            (None, None) => self.settings.participation_config is Some,
            _ => false,
        }
    }

    /// The payout ticket key the argument tuple addresses. Meaningful only
    /// under `payout_slot_ok`.
    pub open spec fn payout_slot_key(self, args: EmptyPaymentAccountArgs) -> u64 {
        match (args.winning_config_index, args.winning_config_item_index) {
            (Some(t), Some(i)) => payout_key(
                t as int,
                i as int,
                self.settings.tiers()[t as int][i as int].box_index as int,
                creator_part(args.creator_index),
            ),
            _ => payout_key(
                256,
                0,
                self.settings.participation_config->0.box_index as int,
                creator_part(args.creator_index),
            ),
        }
    }

    /// The funds attributable to the addressed slot: the winning bid of the
    /// slot's rank (nothing when no bidder won that rank), or, for the
    /// participation prize, the sum of all participation payments received.
    pub open spec fn payout_base(self, a: AuctionView, args: EmptyPaymentAccountArgs) -> int {
        match (args.winning_config_index, args.winning_config_item_index) {
            (Some(t), Some(i)) => if (t as int) < a.winners@.len() {
                a.winning_bids@[t as int] as int
            } else {
                0
            },
            _ => self.participation_total as int,
        }
    }

    /// The basis-point share the addressed recipient is entitled to: the
    /// creator's share, or everything when the asset has no creator list and
    /// the auctioneer is paid.
    pub open spec fn payout_share(creators: Seq<Creator>, ci: Option<u8>) -> int {
        match ci {
            Some(c) => creators[c as int].share_bps as int,
            None => 10000,
        }
    }

    /// Is the destination owned by the addressed recipient?
    pub open spec fn payout_recipient_ok(
        self,
        creators: Seq<Creator>,
        ci: Option<u8>,
        owner: AccountKey,
    ) -> bool {
        match ci {
            Some(c) => (c as int) < creators.len() && creators[c as int].key == owner,
            None => creators.len() == 0 && owner == self.authority,
        }
    }

    /// The cumulative amount the ticket at `key` has accounted so far.
    pub open spec fn payout_already(self, key: u64) -> int {
        if self.payout_tickets@.contains_key(key) {
            self.payout_tickets@[key] as int
        } else {
            0
        }
    }

    /// The exact condition under which a payout call succeeds. Note that a
    /// fully paid slot still succeeds — paying zero — which is what makes the
    /// engine safely re-entrant for permissionless callers.
    pub open spec fn empty_payment_would_succeed(
        self,
        a: AuctionView,
        args: EmptyPaymentAccountArgs,
        creators: Seq<Creator>,
        owner: AccountKey,
    ) -> bool {
        &&& self.status.is_disbursable()
        &&& self.payout_slot_ok(args)
        &&& self.payout_recipient_ok(creators, args.creator_index, owner)
        &&& payout_delta(
            entitlement_of(self.payout_base(a, args), Self::payout_share(creators, args.creator_index)),
            self.payout_already(self.payout_slot_key(args)),
        ) <= self.escrow
    }

    /// The error a payout call fails with, by check order.
    pub open spec fn empty_payment_error(
        self,
        a: AuctionView,
        args: EmptyPaymentAccountArgs,
        creators: Seq<Creator>,
        owner: AccountKey,
    ) -> MetaplexError {
        if !self.status.is_disbursable() {
            MetaplexError::StateNotDisbursingOrFinished
        } else if args.winning_config_index is None && args.winning_config_item_index is None
            && self.settings.participation_config is None {
            MetaplexError::ParticipationNotConfigured
        } else if !self.payout_slot_ok(args) {
            MetaplexError::InvalidWinningConfig
        } else if args.creator_index matches Some(c) && !((c as int) < creators.len()) {
            MetaplexError::InvalidCreatorIndex
        } else if args.creator_index matches Some(c) && creators[c as int].key != owner {
            MetaplexError::CreatorMismatch
        } else if args.creator_index is None && creators.len() != 0 {
            MetaplexError::InvalidCreatorIndex
        } else if args.creator_index is None && owner != self.authority {
            MetaplexError::WrongAuthority
        } else {
            MetaplexError::InsufficientEscrow
        }
    }

    /// Draws one winning bidder's bid funds from the external auction's
    /// escrow into the accept-payment account, at most once per bidder,
    /// available once the manager is disbursing (the auction is then over).
    /// Returns the amount drawn.
    pub fn claim_bid(&mut self, a: &AuctionView, bidder: AccountKey) -> (r: Result<
        u64,
        MetaplexError,
    >)
        requires
            old(self).wf(),
            a.well_formed(),
        ensures
            final(self).wf(),
            final(self).status == old(self).status,
            r is Ok <==> ({
                &&& a.concluded
                &&& a.is_winner(bidder)
                &&& !old(self).claimed_bids@.contains_key(bidder)
                &&& old(self).status is Disbursing || old(self).status is Finished
                &&& old(self).escrow + a.winning_bids@[a.rank_of(bidder)] <= u64::MAX
            }),
            r matches Err(e) ==> *final(self) == *old(self) && e == (
                if !a.concluded {
                    MetaplexError::AuctionNotEnded
                } else if !a.is_winner(bidder) {
                    MetaplexError::NotWinner
                } else if old(self).claimed_bids@.contains_key(bidder) {
                    MetaplexError::AlreadyRedeemed
                } else if !(old(self).status is Disbursing || old(self).status is Finished) {
                    MetaplexError::InvalidState
                } else {
                    MetaplexError::NumericalOverflow
                }),
            r matches Ok(amount) ==> ({
                &&& amount == a.winning_bids@[a.rank_of(bidder)]
                &&& final(self).escrow == old(self).escrow + amount
                &&& final(self).claimed_bids@ == old(self).claimed_bids@.insert(bidder, amount)
                &&& final(self).validation_tickets@ == old(self).validation_tickets@
                &&& final(self).original_authority_lookups@ == old(self).original_authority_lookups@
                &&& final(self).bid_redemption_tickets@ == old(self).bid_redemption_tickets@
                &&& final(self).payout_tickets@ == old(self).payout_tickets@
                &&& final(self).fallback_redemptions@ == old(self).fallback_redemptions@
                &&& final(self).authority_holds@ == old(self).authority_holds@
                &&& final(self).authorities_outstanding == old(self).authorities_outstanding
                &&& final(self).participation_total == old(self).participation_total
                &&& final(self).printing_pool == old(self).printing_pool
                &&& final(self).printing_pool_populated == old(self).printing_pool_populated
                &&& final(self).settings == old(self).settings
                &&& final(self).authority == old(self).authority
            }),
    {
        if !a.concluded {
            return Err(MetaplexError::AuctionNotEnded);
        }
        let rank = match a.find_rank(bidder) {
            Some(rank) => rank,
            None => {
                return Err(MetaplexError::NotWinner);
            },
        };
        if self.claimed_bids.contains_key(&bidder) {
            return Err(MetaplexError::AlreadyRedeemed);
        }
        if !matches!(
            self.status,
            AuctionManagerStatus::Disbursing | AuctionManagerStatus::Finished
        ) {
            return Err(MetaplexError::InvalidState);
        }
        let amount = a.winning_bids[rank];
        let escrow_after = match self.escrow.checked_add(amount) {
            Some(v) => v,
            None => {
                return Err(MetaplexError::NumericalOverflow);
            },
        };
        self.escrow = escrow_after;
        self.claimed_bids.insert(bidder, amount);
        Ok(amount)
    }

    /// Computes a recipient's entitlement; never exceeds the attributable
    /// amount because the share is a basis-point fraction.
    fn compute_entitlement(base: u64, share: u16) -> (r: u64)
        requires
            share <= 10000,
        ensures
            r as int == entitlement_of(base as int, share as int),
            r <= base,
    {
        proof {
            assert((base as int) * (share as int) <= 0xFFFFFFFFFFFFFFFFint * 10000int)
                by (nonlinear_arith)
                requires
                    0 <= (base as int) <= 0xFFFFFFFFFFFFFFFFint,
                    0 <= (share as int) <= 10000int,
            ;
        }
        let prod: u128 = (base as u128) * (share as u128);
        let ent: u128 = prod / 10000;
        proof {
            lemma_mul_inequality(share as int, 10000, base as int);
            lemma_div_is_ordered((base as int) * (share as int), (base as int) * 10000, 10000);
            lemma_div_multiples_vanish(base as int, 10000);
            assert((base as int) * (share as int) == (share as int) * (base as int))
                by (nonlinear_arith);
            assert((base as int) * 10000 == 10000 * (base as int)) by (nonlinear_arith);
        }
        ent as u64
    }

    /// Permissionless payout of one recipient's royalty share for one prize
    /// slot (or the participation prize). Pays only the gap between the
    /// computed entitlement and what the slot's payout ticket already
    /// accounts, updates the ticket, and succeeds — paying zero — when the
    /// entitlement is already covered, so that crash-and-retry by unrelated
    /// callers is harmless. An escrow shortfall is an upstream accounting
    /// defect and rejects the call untouched rather than truncating. Returns
    /// the amount paid out.
    pub fn empty_payment_account(
        &mut self,
        a: &AuctionView,
        args: EmptyPaymentAccountArgs,
        creators: &Vec<Creator>,
        destination_owner: AccountKey,
    ) -> (r: Result<u64, MetaplexError>)
        requires
            old(self).wf(),
            a.well_formed(),
            shares_bounded(creators@),
        ensures
            final(self).wf(),
            final(self).status == old(self).status,
            r is Ok <==> old(self).empty_payment_would_succeed(*a, args, creators@, destination_owner),
            r matches Err(e) ==> *final(self) == *old(self)
                && e == old(self).empty_payment_error(*a, args, creators@, destination_owner),
            r matches Ok(delta) ==> ({
                let key = old(self).payout_slot_key(args);
                let ent = entitlement_of(
                    old(self).payout_base(*a, args),
                    Self::payout_share(creators@, args.creator_index),
                );
                let already = old(self).payout_already(key);
                &&& delta as int == payout_delta(ent, already)
                &&& final(self).payout_tickets@ == old(self).payout_tickets@.insert(
                    key,
                    (if ent > already { ent } else { already }) as u64,
                )
                &&& final(self).escrow == old(self).escrow - delta
                &&& final(self).validation_tickets@ == old(self).validation_tickets@
                &&& final(self).original_authority_lookups@ == old(self).original_authority_lookups@
                &&& final(self).bid_redemption_tickets@ == old(self).bid_redemption_tickets@
                &&& final(self).claimed_bids@ == old(self).claimed_bids@
                &&& final(self).fallback_redemptions@ == old(self).fallback_redemptions@
                &&& final(self).authority_holds@ == old(self).authority_holds@
                &&& final(self).authorities_outstanding == old(self).authorities_outstanding
                &&& final(self).participation_total == old(self).participation_total
                &&& final(self).printing_pool == old(self).printing_pool
                &&& final(self).printing_pool_populated == old(self).printing_pool_populated
                &&& final(self).settings == old(self).settings
                &&& final(self).authority == old(self).authority
            }),
    {
        if !matches!(
            self.status,
            AuctionManagerStatus::Disbursing | AuctionManagerStatus::Finished
                | AuctionManagerStatus::Decommissioned
        ) {
            return Err(MetaplexError::StateNotDisbursingOrFinished);
        }
        let tag: u64;
        let item: u64;
        let bx: u8;
        let base: u64;
        match (args.winning_config_index, args.winning_config_item_index) {
            (Some(t), Some(i)) => {
                let tu = t as usize;
                let iu = i as usize;
                if tu >= self.settings.winning_configs.len() {
                    return Err(MetaplexError::InvalidWinningConfig);
                }
                proof {
                    assert(self.settings.winning_configs@[tu as int].items@
                        == self.settings.tiers()[tu as int]);
                }
                if iu >= self.settings.winning_configs[tu].items.len() {
                    return Err(MetaplexError::InvalidWinningConfig);
                }
                tag = t as u64;
                item = i as u64;
                bx = self.settings.winning_configs[tu].items[iu].box_index;
                base = if tu < a.winners.len() {
                    a.winning_bids[tu]
                } else {
                    0
                };
            },
            (None, None) => {
                let pc = match &self.settings.participation_config {
                    Some(pc) => *pc,
                    None => {
                        return Err(MetaplexError::ParticipationNotConfigured);
                    },
                };
                tag = 256;
                item = 0;
                bx = pc.box_index;
                base = self.participation_total;
            },
            _ => {
                return Err(MetaplexError::InvalidWinningConfig);
            },
        }
        let share: u16;
        match args.creator_index {
            Some(c) => {
                let cu = c as usize;
                if cu >= creators.len() {
                    return Err(MetaplexError::InvalidCreatorIndex);
                }
                if creators[cu].key != destination_owner {
                    return Err(MetaplexError::CreatorMismatch);
                }
                share = creators[cu].share_bps;
            },
            None => {
                if creators.len() != 0 {
                    return Err(MetaplexError::InvalidCreatorIndex);
                }
                if destination_owner != self.authority {
                    return Err(MetaplexError::WrongAuthority);
                }
                share = 10000;
            },
        }
        let creator: u64 = match args.creator_index {
            Some(c) => c as u64,
            None => 256,
        };
        let key: u64 = tag * 0x10000000000 + item * 0x1000000 + (bx as u64) * 0x10000 + creator;
        proof {
            assert(key == self.payout_slot_key(args));
        }
        let ent = Self::compute_entitlement(base, share);
        let already: u64 = match self.payout_tickets.get(&key) {
            Some(v) => *v,
            None => 0,
        };
        let delta: u64 = if ent > already {
            ent - already
        } else {
            0
        };
        if delta > self.escrow {
            return Err(MetaplexError::InsufficientEscrow);
        }
        self.escrow = self.escrow - delta;
        let updated: u64 = if ent > already {
            ent
        } else {
            already
        };
        self.payout_tickets.insert(key, updated);
        Ok(delta)
    }
}

} // verus!
