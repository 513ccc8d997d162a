//! The redemption engine: the three bid-redemption paths and the auctioneer
//! fallback. Each call consumes a winning (or participation) claim, emits the
//! asset movements the caller must perform, releases reserved authorities as
//! their last use is redeemed, and drives the manager's status forward.

use vstd::prelude::*;
use crate::config::{AccountKey, PrizeSlot};
use crate::external::AuctionView;
use crate::manager::{AuctionManager, BidRedemptionTicket, SafetyDepositValidationTicket};
use crate::state::{AuctionManagerStatus, MetaplexError};

verus! {

/// The permanent handover of an asset's metadata authority emitted by a
/// full-rights-transfer redemption.
#[derive(Clone, Copy, PartialEq, Eq, Structural, Debug)]
pub struct AuthorityHandover {
    pub metadata: AccountKey,
    pub to: AccountKey,
}

/// One asset movement a successful redemption asks the caller to perform.
#[derive(Clone, Copy, PartialEq, Eq, Structural, Debug)]
pub enum PrizeDelivery {
    /// Move `amount` tokens out of the box's store to the destination.
    Tokens { box_index: u8, amount: u64 },
    /// Mint one numbered edition from the box's printing mint, under the
    /// authority the validator reserved.
    PrintedEdition { box_index: u8 },
    /// Move the master asset out of the box and, when the box was validated,
    /// hand its permanent metadata authority over.
    FullRights { box_index: u8, amount: u64, handover: Option<AuthorityHandover> },
}

/// The return of a reserved authority to its recorded original owner, due
/// when a redemption spends the last outstanding use of a box's authority.
#[derive(Clone, Copy, PartialEq, Eq, Structural, Debug)]
pub struct AuthorityRestoration {
    pub box_index: u8,
    pub metadata: AccountKey,
    pub to: AccountKey,
}

/// What a successful redemption hands back: the prize movements, one per
/// prize slot, and the authority restorations it triggered.
#[derive(Clone, Debug)]
pub struct RedemptionReceipt {
    pub deliveries: Vec<PrizeDelivery>,
    pub restorations: Vec<AuthorityRestoration>,
}

/// The status a redemption leaves the manager in: the first redemption flips
/// `Running` to `Disbursing`, and the redemption that spends the last
/// outstanding authority hold advances `Disbursing` to `Finished`. Terminal
/// statuses never change.
pub open spec fn status_after_redemption(
    status: AuctionManagerStatus,
    holds_empty: bool,
) -> AuctionManagerStatus {
    let moved = if status is Running {
        AuctionManagerStatus::Disbursing
    } else {
        status
    };
    if moved is Disbursing && holds_empty {
        AuctionManagerStatus::Finished
    } else {
        moved
    }
}

/// Does redeeming this slot spend one use of box `b`'s reserved authority?
pub open spec fn touches_le(it: PrizeSlot, b: u64) -> bool {
    it.kind is LimitedEditionPrint && it.box_index as u64 == b
}

/// Does redeeming this slot spend the last use of its box's hold?
pub open spec fn le_releases(it: PrizeSlot, oh: Map<u64, u64>) -> bool {
    &&& it.kind is LimitedEditionPrint
    &&& oh.contains_key(it.box_index as u64)
    &&& oh[it.box_index as u64] <= 1
}

/// The authority holds after redeeming the first `n` slots of a tier:
/// each limited-edition slot spends one use of its box's hold, and a hold
/// whose last use is spent leaves the map.
pub open spec fn le_holds_after(items: Seq<PrizeSlot>, oh: Map<u64, u64>, n: int) -> Map<u64, u64>
    decreases n,
{
    if n <= 0 {
        oh
    } else {
        let h = le_holds_after(items, oh, n - 1);
        let it = items[n - 1];
        let b = it.box_index as u64;
        if it.kind is LimitedEditionPrint && oh.contains_key(b) {
            if oh[b] <= 1 {
                h.remove(b)
            } else {
                h.insert(b, (oh[b] - 1) as u64)
            }
        } else {
            h
        }
    }
}

/// Does redeeming this slot clear the original-authority record at key `m`?
pub open spec fn clears_lookup(
    it: PrizeSlot,
    oh: Map<u64, u64>,
    tk: Map<u64, SafetyDepositValidationTicket>,
    m: u64,
) -> bool {
    &&& le_releases(it, oh)
    &&& tk.contains_key(it.box_index as u64)
    &&& tk[it.box_index as u64].metadata == m
}

/// The original-authority records after redeeming the first `n` slots of a
/// tier: the record of a box whose authority is released is consumed.
pub open spec fn le_lookups_after(
    items: Seq<PrizeSlot>,
    oh: Map<u64, u64>,
    tk: Map<u64, SafetyDepositValidationTicket>,
    ol: Map<u64, AccountKey>,
    n: int,
) -> Map<u64, AccountKey>
    decreases n,
{
    if n <= 0 {
        ol
    } else {
        let l = le_lookups_after(items, oh, tk, ol, n - 1);
        let it = items[n - 1];
        let b = it.box_index as u64;
        if le_releases(it, oh) && tk.contains_key(b) {
            l.remove(tk[b].metadata)
        } else {
            l
        }
    }
}

/// The authority restorations owed after redeeming the first `n` slots of a
/// tier, in slot order: one per box whose last authority use is spent,
/// returning the recorded original authority.
pub open spec fn le_restorations(
    items: Seq<PrizeSlot>,
    oh: Map<u64, u64>,
    tk: Map<u64, SafetyDepositValidationTicket>,
    ol: Map<u64, AccountKey>,
    n: int,
) -> Seq<AuthorityRestoration>
    decreases n,
{
    if n <= 0 {
        Seq::empty()
    } else {
        let s = le_restorations(items, oh, tk, ol, n - 1);
        let it = items[n - 1];
        let b = it.box_index as u64;
        if le_releases(it, oh) && tk.contains_key(b) {
            s.push(
                AuthorityRestoration {
                    box_index: it.box_index,
                    metadata: tk[b].metadata,
                    to: ol[tk[b].metadata],
                },
            )
        } else {
            s
        }
    }
}

/// The movement owed for one slot of a standard-path tier.
pub open spec fn standard_delivery(it: PrizeSlot) -> PrizeDelivery {
    if it.kind is LimitedEditionPrint {
        PrizeDelivery::PrintedEdition { box_index: it.box_index }
    } else {
        PrizeDelivery::Tokens { box_index: it.box_index, amount: it.amount }
    }
}

/// Pointwise description of `le_holds_after`: what happens to the hold of one
/// box depends only on whether some redeemed slot touches it.
pub proof fn lemma_le_holds_after_point(items: Seq<PrizeSlot>, oh: Map<u64, u64>, n: int, b: u64)
    requires
        0 <= n <= items.len(),
    ensures
        !oh.contains_key(b) ==> !le_holds_after(items, oh, n).contains_key(b),
        oh.contains_key(b) && !(exists|j: int| 0 <= j < n && touches_le(#[trigger] items[j], b))
            ==> le_holds_after(items, oh, n).contains_key(b)
                && le_holds_after(items, oh, n)[b] == oh[b],
        oh.contains_key(b) && (exists|j: int| 0 <= j < n && touches_le(#[trigger] items[j], b))
            && oh[b] <= 1 ==> !le_holds_after(items, oh, n).contains_key(b),
        oh.contains_key(b) && (exists|j: int| 0 <= j < n && touches_le(#[trigger] items[j], b))
            && oh[b] > 1 ==> le_holds_after(items, oh, n).contains_key(b)
                && le_holds_after(items, oh, n)[b] == oh[b] - 1,
    decreases n,
{
    if n > 0 {
        lemma_le_holds_after_point(items, oh, n - 1, b);
        if exists|j: int| 0 <= j < n && touches_le(#[trigger] items[j], b) {
            let j = choose|j: int| 0 <= j < n && touches_le(#[trigger] items[j], b);
            if j < n - 1 {
                assert(exists|k: int| 0 <= k < n - 1 && touches_le(#[trigger] items[k], b));
            }
        }
    }
}

/// Pointwise description of `le_lookups_after`: one original-authority record
/// is consumed exactly when some redeemed slot clears it.
pub proof fn lemma_le_lookups_after_point(
    items: Seq<PrizeSlot>,
    oh: Map<u64, u64>,
    tk: Map<u64, SafetyDepositValidationTicket>,
    ol: Map<u64, AccountKey>,
    n: int,
    m: u64,
)
    requires
        0 <= n <= items.len(),
    ensures
        !(exists|j: int| 0 <= j < n && clears_lookup(#[trigger] items[j], oh, tk, m))
            ==> le_lookups_after(items, oh, tk, ol, n).contains_key(m) == ol.contains_key(m)
                && (ol.contains_key(m) ==> le_lookups_after(items, oh, tk, ol, n)[m] == ol[m]),
        (exists|j: int| 0 <= j < n && clears_lookup(#[trigger] items[j], oh, tk, m))
            ==> !le_lookups_after(items, oh, tk, ol, n).contains_key(m),
    decreases n,
{
    if n > 0 {
        lemma_le_lookups_after_point(items, oh, tk, ol, n - 1, m);
        if exists|j: int| 0 <= j < n && clears_lookup(#[trigger] items[j], oh, tk, m) {
            let j = choose|j: int| 0 <= j < n && clears_lookup(#[trigger] items[j], oh, tk, m);
            if j < n - 1 {
                assert(exists|k: int| 0 <= k < n - 1 && clears_lookup(#[trigger] items[k], oh, tk, m));
            }
        }
    }
}

impl AuctionManager {
    /// Has `bidder` already redeemed the main-prize category?
    pub open spec fn main_prize_redeemed(self, bidder: AccountKey) -> bool {
        self.bid_redemption_tickets@.contains_key(bidder)
            && self.bid_redemption_tickets@[bidder].main_redeemed
    }

    /// Has `bidder` already redeemed the participation category?
    pub open spec fn participation_prize_redeemed(self, bidder: AccountKey) -> bool {
        self.bid_redemption_tickets@.contains_key(bidder)
            && self.bid_redemption_tickets@[bidder].participation_redeemed
    }

    /// A tier redeemable on the standard path: no full-rights-transfer slot.
    pub open spec fn standard_tier(items: Seq<PrizeSlot>) -> bool {
        forall|i: int| 0 <= i < items.len() ==> (#[trigger] items[i]).kind !is FullRightsTransfer
    }

    /// Every limited-edition slot of the tier still holds its box's reserved
    /// printing authority.
    pub open spec fn le_holds_ready(self, items: Seq<PrizeSlot>) -> bool {
        forall|i: int|
            0 <= i < items.len() && (#[trigger] items[i]).kind is LimitedEditionPrint
                ==> self.authority_holds@.contains_key(items[i].box_index as u64)
    }

    /// The exact condition under which a standard bid redemption succeeds.
    pub open spec fn redeem_bid_would_succeed(self, a: AuctionView, bidder: AccountKey) -> bool {
        &&& a.concluded
        &&& a.is_winner(bidder)
        &&& !self.main_prize_redeemed(bidder)
        &&& self.status is Running || self.status is Disbursing
        &&& a.rank_of(bidder) < self.settings.tiers().len()
        &&& Self::standard_tier(self.settings.tiers()[a.rank_of(bidder)])
        &&& self.le_holds_ready(self.settings.tiers()[a.rank_of(bidder)])
    }

    /// The error a standard bid redemption fails with, by check order.
    pub open spec fn redeem_bid_error(self, a: AuctionView, bidder: AccountKey) -> MetaplexError {
        if !a.concluded {
            MetaplexError::AuctionNotEnded
        } else if !a.is_winner(bidder) {
            MetaplexError::NotWinner
        } else if self.main_prize_redeemed(bidder) {
            MetaplexError::AlreadyRedeemed
        } else if !(self.status is Running || self.status is Disbursing) {
            MetaplexError::InvalidState
        } else if !(a.rank_of(bidder) < self.settings.tiers().len()) {
            MetaplexError::InvalidWinningConfig
        } else if !Self::standard_tier(self.settings.tiers()[a.rank_of(bidder)]) {
            MetaplexError::PrizeKindMismatch
        } else {
            MetaplexError::MintAuthorityMismatch
        }
    }

    /// Copies one tier's slot list out of the configuration.
    fn copy_tier(&self, t: usize) -> (v: Vec<PrizeSlot>)
        requires
            t < self.settings.tiers().len(),
        ensures
            v@ == self.settings.tiers()[t as int],
    {
        let items = &self.settings.winning_configs[t].items;
        proof {
            assert(items@ == self.settings.tiers()[t as int]);
        }
        let mut v: Vec<PrizeSlot> = Vec::new();
        let mut i: usize = 0;
        while i < items.len()
            invariant
                i <= items@.len(),
                v@.len() == i,
                forall|j: int| 0 <= j < i ==> v@[j] == items@[j],
            decreases items@.len() - i,
        {
            v.push(items[i]);
            i += 1;
        }
        proof {
            assert(v@ =~= items@);
        }
        v
    }

    /// Standard redemption: the winning bidder at some rank redeems the
    /// prizes of that rank's tier. Token prizes are released from their
    /// boxes; limited-edition prizes mint a numbered edition and spend one
    /// use of their box's reserved authority, which is restored to its
    /// recorded owner when its last use is spent. Marks the bidder's
    /// main-prize category redeemed; at most one such redemption per bidder
    /// ever succeeds. The first successful redemption moves `Running` to
    /// `Disbursing`, and the one that spends the last outstanding authority
    /// hold moves `Disbursing` to `Finished`.
    #[verifier::loop_isolation(false)]
    pub fn redeem_bid(&mut self, a: &AuctionView, bidder: AccountKey) -> (r: Result<
        RedemptionReceipt,
        MetaplexError,
    >)
        requires
            old(self).wf(),
            a.well_formed(),
        ensures
            final(self).wf(),
            old(self).status.rank() <= final(self).status.rank(),
            r is Ok <==> old(self).redeem_bid_would_succeed(*a, bidder),
            r matches Err(e) ==> *final(self) == *old(self) && e == old(self).redeem_bid_error(
                *a,
                bidder,
            ),
            r matches Ok(receipt) ==> ({
                let rank = a.rank_of(bidder);
                let items = old(self).settings.tiers()[rank];
                let oh = old(self).authority_holds@;
                let tk = old(self).validation_tickets@;
                let ol = old(self).original_authority_lookups@;
                &&& receipt.deliveries@ == Seq::new(items.len(), |i: int| standard_delivery(items[i]))
                &&& receipt.restorations@ == le_restorations(items, oh, tk, ol, items.len() as int)
                &&& final(self).authority_holds@ == le_holds_after(items, oh, items.len() as int)
                &&& final(self).original_authority_lookups@ == le_lookups_after(
                    items, oh, tk, ol, items.len() as int,
                )
                &&& final(self).bid_redemption_tickets@ == old(self).bid_redemption_tickets@.insert(
                    bidder,
                    BidRedemptionTicket {
                        main_redeemed: true,
                        participation_redeemed: old(self).participation_prize_redeemed(bidder),
                    },
                )
                &&& final(self).status == status_after_redemption(
                    old(self).status,
                    final(self).authority_holds@.dom().len() == 0,
                )
                &&& final(self).validation_tickets@ == old(self).validation_tickets@
                &&& final(self).payout_tickets@ == old(self).payout_tickets@
                &&& final(self).claimed_bids@ == old(self).claimed_bids@
                &&& final(self).fallback_redemptions@ == old(self).fallback_redemptions@
                &&& final(self).escrow == old(self).escrow
                &&& final(self).participation_total == old(self).participation_total
                &&& final(self).printing_pool == old(self).printing_pool
                &&& final(self).printing_pool_populated == old(self).printing_pool_populated
                &&& final(self).settings == old(self).settings
                &&& final(self).authority == old(self).authority
            }),
    {
        if !a.concluded {
            return Err(MetaplexError::AuctionNotEnded);
        }
        let rank = match a.find_rank(bidder) {
            Some(rank) => rank,
            None => {
                return Err(MetaplexError::NotWinner);
            },
        };
        let prior = match self.bid_redemption_tickets.get(&bidder) {
            Some(t) => *t,
            None => BidRedemptionTicket { main_redeemed: false, participation_redeemed: false },
        };
        if prior.main_redeemed {
            return Err(MetaplexError::AlreadyRedeemed);
        }
        if !matches!(
            self.status,
            AuctionManagerStatus::Running | AuctionManagerStatus::Disbursing
        ) {
            return Err(MetaplexError::InvalidState);
        }
        if rank >= self.settings.winning_configs.len() {
            return Err(MetaplexError::InvalidWinningConfig);
        }
        let items = self.copy_tier(rank);
        // reject the tier outright before mutating anything, so a failing
        // call leaves every record untouched
        let mut i: usize = 0;
        while i < items.len()
            invariant
                i <= items@.len(),
                forall|j: int| 0 <= j < i ==> (#[trigger] items@[j]).kind !is FullRightsTransfer,
            decreases items@.len() - i,
        {
            if matches!(items[i].kind, crate::config::PrizeKind::FullRightsTransfer) {
                proof {
                    assert(self.settings.tiers()[a.rank_of(bidder)][i as int].kind
                        is FullRightsTransfer);
                }
                return Err(MetaplexError::PrizeKindMismatch);
            }
            i += 1;
        }
        let mut i: usize = 0;
        while i < items.len()
            invariant
                i <= items@.len(),
                forall|j: int|
                    0 <= j < i && (#[trigger] items@[j]).kind is LimitedEditionPrint
                        ==> self.authority_holds@.contains_key(items@[j].box_index as u64),
            decreases items@.len() - i,
        {
            if matches!(items[i].kind, crate::config::PrizeKind::LimitedEditionPrint)
                && !self.authority_holds.contains_key(&(items[i].box_index as u64)) {
                proof {
                    assert(self.settings.tiers()[a.rank_of(bidder)][i as int].kind
                        is LimitedEditionPrint);
                    assert(!self.authority_holds@.contains_key(
                        self.settings.tiers()[a.rank_of(bidder)][i as int].box_index as u64,
                    ));
                }
                return Err(MetaplexError::MintAuthorityMismatch);
            }
            i += 1;
        }
        let ghost oh = self.authority_holds@;
        let ghost tk = self.validation_tickets@;
        let ghost ol = self.original_authority_lookups@;
        self.bid_redemption_tickets.insert(
            bidder,
            BidRedemptionTicket {
                main_redeemed: true,
                participation_redeemed: prior.participation_redeemed,
            },
        );
        let mut deliveries: Vec<PrizeDelivery> = Vec::new();
        let mut restorations: Vec<AuthorityRestoration> = Vec::new();
        let mut i: usize = 0;
        while i < items.len()
            invariant
                i <= items@.len(),
                items@ == old(self).settings.tiers()[a.rank_of(bidder)],
                old(self).wf(),
                // facts established by the pre-checks, over the pre-effect maps
                forall|j: int| 0 <= j < items@.len()
                    ==> (#[trigger] items@[j]).kind !is FullRightsTransfer,
                forall|j: int|
                    0 <= j < items@.len() && (#[trigger] items@[j]).kind is LimitedEditionPrint
                        ==> oh.contains_key(items@[j].box_index as u64),
                forall|p: int, q: int|
                    0 <= p < q < items@.len()
                        ==> (#[trigger] items@[p]).box_index != (#[trigger] items@[q]).box_index,
                oh == old(self).authority_holds@,
                tk == old(self).validation_tickets@,
                ol == old(self).original_authority_lookups@,
                // the evolving state
                self.authority_holds@ == le_holds_after(items@, oh, i as int),
                self.original_authority_lookups@ == le_lookups_after(items@, oh, tk, ol, i as int),
                deliveries@.len() == i,
                forall|j: int| 0 <= j < i ==> deliveries@[j] == standard_delivery(items@[j]),
                restorations@ == le_restorations(items@, oh, tk, ol, i as int),
                // fields this loop never touches
                self.validation_tickets@ == old(self).validation_tickets@,
                self.bid_redemption_tickets@ == old(self).bid_redemption_tickets@.insert(
                    bidder,
                    BidRedemptionTicket {
                        main_redeemed: true,
                        participation_redeemed: old(self).participation_prize_redeemed(bidder),
                    },
                ),
                self.payout_tickets@ == old(self).payout_tickets@,
                self.claimed_bids@ == old(self).claimed_bids@,
                self.fallback_redemptions@ == old(self).fallback_redemptions@,
                self.escrow == old(self).escrow,
                self.participation_total == old(self).participation_total,
                self.printing_pool == old(self).printing_pool,
                self.printing_pool_populated == old(self).printing_pool_populated,
                self.settings == old(self).settings,
                self.authority == old(self).authority,
                self.vault == old(self).vault,
                self.auction == old(self).auction,
                self.store == old(self).store,
                self.accept_payment == old(self).accept_payment,
                self.status == old(self).status,
                self.authorities_outstanding == old(self).authorities_outstanding,
            decreases items@.len() - i,
        {
            let it = items[i];
            let b = it.box_index as u64;
            proof {
                // the prefix never touched this box, so the live maps still
                // agree with the pre-effect maps at its keys
                assert(forall|j: int| 0 <= j < i ==> !touches_le(#[trigger] items@[j], b));
                lemma_le_holds_after_point(items@, oh, i as int, b);
            }
            match it.kind {
                crate::config::PrizeKind::TokenTransfer => {
                    deliveries.push(PrizeDelivery::Tokens { box_index: it.box_index, amount: it.amount });
                    proof {
                        assert(le_holds_after(items@, oh, i + 1) =~= le_holds_after(items@, oh, i as int));
                        assert(le_lookups_after(items@, oh, tk, ol, i + 1)
                            =~= le_lookups_after(items@, oh, tk, ol, i as int));
                    }
                },
                crate::config::PrizeKind::LimitedEditionPrint => {
                    deliveries.push(PrizeDelivery::PrintedEdition { box_index: it.box_index });
                    let rem = match self.authority_holds.get(&b) {
                        Some(rem) => *rem,
                        None => {
                            proof {
                                assert(false);
                            }
                            0
                        },
                    };
                    proof {
                        assert(rem == oh[b]);
                    }
                    if rem <= 1 {
                        // last use: release the hold and return the authority
                        let tkt = match self.validation_tickets.get(&b) {
                            Some(t) => *t,
                            None => {
                                proof {
                                    assert(false);
                                }
                                SafetyDepositValidationTicket { metadata: 0, authority_reserved: false }
                            },
                        };
                        proof {
                            assert(tk.contains_key(b) && tk[b] == tkt);
                            assert(ol.contains_key(tkt.metadata));
                            assert(forall|j: int| 0 <= j < i
                                ==> !clears_lookup(#[trigger] items@[j], oh, tk, tkt.metadata)) by {
                                assert forall|j: int| 0 <= j < i
                                    implies !clears_lookup(#[trigger] items@[j], oh, tk, tkt.metadata) by {
                                    if le_releases(items@[j], oh) && tk.contains_key(items@[j].box_index as u64) {
                                        let bj = items@[j].box_index as u64;
                                        // bj and b are distinct held boxes, so their
                                        // validated metadata accounts differ
                                        assert(oh.contains_key(bj) && oh.contains_key(b));
                                        assert(bj != b);
                                        assert(tk[bj].metadata != tk[b].metadata);
                                    }
                                }
                            }
                            lemma_le_lookups_after_point(items@, oh, tk, ol, i as int, tkt.metadata);
                        }
                        self.authority_holds.remove(&b);
                        let orig = match self.original_authority_lookups.remove(&tkt.metadata) {
                            Some(v) => v,
                            None => {
                                proof {
                                    assert(false);
                                }
                                0
                            },
                        };
                        restorations.push(
                            AuthorityRestoration { box_index: it.box_index, metadata: tkt.metadata, to: orig },
                        );
                    } else {
                        self.authority_holds.insert(b, rem - 1);
                        proof {
                            assert(le_lookups_after(items@, oh, tk, ol, i + 1)
                                =~= le_lookups_after(items@, oh, tk, ol, i as int));
                            assert(le_restorations(items@, oh, tk, ol, i + 1)
                                =~= le_restorations(items@, oh, tk, ol, i as int));
                        }
                    }
                },
                crate::config::PrizeKind::FullRightsTransfer => {
                    proof {
                        assert(false);
                    }
                },
            }
            i += 1;
        }
        self.authorities_outstanding = self.authority_holds.len();
        if matches!(self.status, AuctionManagerStatus::Running) {
            self.status = AuctionManagerStatus::Disbursing;
        }
        if matches!(self.status, AuctionManagerStatus::Disbursing) && self.authority_holds.len() == 0 {
            self.status = AuctionManagerStatus::Finished;
        }
        proof {
            assert(deliveries@ =~= Seq::new(
                old(self).settings.tiers()[a.rank_of(bidder)].len(),
                |j: int| standard_delivery(old(self).settings.tiers()[a.rank_of(bidder)][j]),
            ));
            lemma_wf_after_le_redemption(*old(self), *self, items@, oh, tk, ol);
        }
        Ok(RedemptionReceipt { deliveries, restorations })
    }
}

/// The packed ledger key of one prize-slot position. Tier and item positions
/// are below 256 in a well-formed configuration, so the packing is injective.
pub open spec fn slot_key(t: int, i: int) -> u64 {
    (t * 256 + i) as u64
}

impl AuctionManager {
    /// Does the redemption path named by `proxy` fit the slot's prize kind?
    pub open spec fn proxy_matches(proxy: crate::instruction::ProxyCallAddress, it: PrizeSlot) -> bool {
        (it.kind is FullRightsTransfer) <==> (proxy is RedeemFullRightsTransferBid)
    }

    /// Is the one slot the fallback redeems ready on its proxied path?
    pub open spec fn fallback_slot_ready(self, it: PrizeSlot) -> bool {
        match it.kind {
            crate::config::PrizeKind::TokenTransfer => true,
            crate::config::PrizeKind::LimitedEditionPrint => self.authority_holds@.contains_key(
                it.box_index as u64,
            ),
            crate::config::PrizeKind::FullRightsTransfer => (
                self.validation_tickets@.contains_key(it.box_index as u64)
                    && self.validation_tickets@[it.box_index as u64].authority_reserved
            ) ==> self.authority_holds@.contains_key(it.box_index as u64),
        }
    }

    /// The exact condition under which the auctioneer fallback succeeds: the
    /// caller is the authority, the manager is in a disbursable status, the
    /// position names a configured slot, the slot's rank has no winning
    /// bidder claim, the slot was not already reclaimed, and the proxied
    /// path fits it.
    pub open spec fn redeem_unused_would_succeed(
        self,
        a: AuctionView,
        caller: AccountKey,
        tier: u8,
        item: u8,
        proxy: crate::instruction::ProxyCallAddress,
    ) -> bool {
        &&& caller == self.authority
        &&& self.status.is_disbursable()
        &&& (tier as int) < self.settings.tiers().len()
        &&& (item as int) < self.settings.tiers()[tier as int].len()
        &&& !((tier as int) < a.winners@.len())
        &&& !self.fallback_redemptions@.contains_key(slot_key(tier as int, item as int))
        &&& Self::proxy_matches(proxy, self.settings.tiers()[tier as int][item as int])
        &&& self.fallback_slot_ready(self.settings.tiers()[tier as int][item as int])
    }

    /// The error the auctioneer fallback fails with, by check order.
    pub open spec fn redeem_unused_error(
        self,
        a: AuctionView,
        caller: AccountKey,
        tier: u8,
        item: u8,
        proxy: crate::instruction::ProxyCallAddress,
    ) -> MetaplexError {
        if caller != self.authority {
            MetaplexError::WrongAuthority
        } else if !self.status.is_disbursable() {
            MetaplexError::InvalidState
        } else if !((tier as int) < self.settings.tiers().len()
            && (item as int) < self.settings.tiers()[tier as int].len()) {
            MetaplexError::InvalidWinningConfig
        } else if (tier as int) < a.winners@.len() {
            MetaplexError::SlotHasWinner
        } else if self.fallback_redemptions@.contains_key(slot_key(tier as int, item as int)) {
            MetaplexError::AlreadyRedeemed
        } else if !Self::proxy_matches(proxy, self.settings.tiers()[tier as int][item as int]) {
            MetaplexError::PrizeKindMismatch
        } else if self.settings.tiers()[tier as int][item as int].kind is LimitedEditionPrint {
            MetaplexError::MintAuthorityMismatch
        } else {
            MetaplexError::AuthorityAlreadyReleased
        }
    }

    /// Auctioneer fallback: redeems one prize slot whose rank never had a
    /// winning bidder, proxying into the standard or full-rights algorithm
    /// with the bidder-identity checks bypassed and the rank hardcoded to
    /// the requested slot. Available only once the manager is disbursable
    /// (`Disbursing`, `Finished`, or `Decommissioned`), and at most once per
    /// slot, recorded in its own ticket. After a decommission, a never
    /// validated box simply skips its authority handover — the documented
    /// recovery caveat.
    pub fn redeem_unused_winning_config_items_as_auctioneer(
        &mut self,
        a: &AuctionView,
        caller: AccountKey,
        winning_config_index: u8,
        args: crate::instruction::RedeemUnusedWinningConfigItemsAsAuctioneerArgs,
        new_authority: AccountKey,
    ) -> (r: Result<RedemptionReceipt, MetaplexError>)
        requires
            old(self).wf(),
            a.well_formed(),
        ensures
            final(self).wf(),
            old(self).status.rank() <= final(self).status.rank(),
            r is Ok <==> old(self).redeem_unused_would_succeed(
                *a,
                caller,
                winning_config_index,
                args.winning_config_item_index,
                args.proxy_call,
            ),
            r matches Err(e) ==> *final(self) == *old(self) && e == old(self).redeem_unused_error(
                *a,
                caller,
                winning_config_index,
                args.winning_config_item_index,
                args.proxy_call,
            ),
            r matches Ok(receipt) ==> ({
                let t = winning_config_index as int;
                let i = args.winning_config_item_index as int;
                let it = old(self).settings.tiers()[t][i];
                let b = it.box_index as u64;
                let oh = old(self).authority_holds@;
                let tk = old(self).validation_tickets@;
                let ol = old(self).original_authority_lookups@;
                &&& final(self).fallback_redemptions@ == old(self).fallback_redemptions@.insert(
                    slot_key(t, i),
                    true,
                )
                &&& (it.kind is TokenTransfer ==> {
                    &&& receipt.deliveries@ == seq![
                        PrizeDelivery::Tokens { box_index: it.box_index, amount: it.amount },
                    ]
                    &&& receipt.restorations@ == Seq::<AuthorityRestoration>::empty()
                    &&& final(self).authority_holds@ == oh
                    &&& final(self).original_authority_lookups@ == ol
                })
                &&& (it.kind is LimitedEditionPrint ==> {
                    &&& receipt.deliveries@ == seq![
                        PrizeDelivery::PrintedEdition { box_index: it.box_index },
                    ]
                    &&& (oh[b] > 1 ==> {
                        &&& final(self).authority_holds@ == oh.insert(b, (oh[b] - 1) as u64)
                        &&& final(self).original_authority_lookups@ == ol
                        &&& receipt.restorations@ == Seq::<AuthorityRestoration>::empty()
                    })
                    &&& (oh[b] <= 1 ==> {
                        &&& final(self).authority_holds@ == oh.remove(b)
                        &&& final(self).original_authority_lookups@ == ol.remove(tk[b].metadata)
                        &&& receipt.restorations@ == seq![
                            AuthorityRestoration {
                                box_index: it.box_index,
                                metadata: tk[b].metadata,
                                to: ol[tk[b].metadata],
                            },
                        ]
                    })
                })
                &&& (it.kind is FullRightsTransfer ==> {
                    &&& receipt.deliveries@ == seq![frt_delivery(it, oh, tk, new_authority)]
                    &&& receipt.restorations@ == Seq::<AuthorityRestoration>::empty()
                    &&& (oh.contains_key(b) ==> {
                        &&& final(self).authority_holds@ == oh.remove(b)
                        &&& final(self).original_authority_lookups@ == ol.remove(tk[b].metadata)
                    })
                    &&& (!oh.contains_key(b) ==> {
                        &&& final(self).authority_holds@ == oh
                        &&& final(self).original_authority_lookups@ == ol
                    })
                })
                &&& final(self).status == status_after_redemption(
                    old(self).status,
                    final(self).authority_holds@.dom().len() == 0,
                )
                &&& final(self).validation_tickets@ == old(self).validation_tickets@
                &&& final(self).bid_redemption_tickets@ == old(self).bid_redemption_tickets@
                &&& final(self).payout_tickets@ == old(self).payout_tickets@
                &&& final(self).claimed_bids@ == old(self).claimed_bids@
                &&& final(self).escrow == old(self).escrow
                &&& final(self).participation_total == old(self).participation_total
                &&& final(self).printing_pool == old(self).printing_pool
                &&& final(self).printing_pool_populated == old(self).printing_pool_populated
                &&& final(self).settings == old(self).settings
                &&& final(self).authority == old(self).authority
            }),
    {
        if caller != self.authority {
            return Err(MetaplexError::WrongAuthority);
        }
        if !matches!(
            self.status,
            AuctionManagerStatus::Disbursing | AuctionManagerStatus::Finished
                | AuctionManagerStatus::Decommissioned
        ) {
            return Err(MetaplexError::InvalidState);
        }
        let t = winning_config_index as usize;
        let i = args.winning_config_item_index as usize;
        if t >= self.settings.winning_configs.len() {
            return Err(MetaplexError::InvalidWinningConfig);
        }
        proof {
            assert(self.settings.winning_configs@[t as int].items@
                == self.settings.tiers()[t as int]);
        }
        if i >= self.settings.winning_configs[t].items.len() {
            return Err(MetaplexError::InvalidWinningConfig);
        }
        if t < a.winners.len() {
            return Err(MetaplexError::SlotHasWinner);
        }
        let key = (winning_config_index as u64) * 256 + (args.winning_config_item_index as u64);
        proof {
            assert(key == slot_key(t as int, i as int));
        }
        if self.fallback_redemptions.contains_key(&key) {
            return Err(MetaplexError::AlreadyRedeemed);
        }
        let it = self.settings.winning_configs[t].items[i];
        proof {
            assert(it == self.settings.tiers()[t as int][i as int]);
        }
        let frt_proxy = matches!(
            args.proxy_call,
            crate::instruction::ProxyCallAddress::RedeemFullRightsTransferBid
        );
        if matches!(it.kind, crate::config::PrizeKind::FullRightsTransfer) != frt_proxy {
            return Err(MetaplexError::PrizeKindMismatch);
        }
        let b = it.box_index as u64;
        let receipt: RedemptionReceipt;
        match it.kind {
            crate::config::PrizeKind::TokenTransfer => {
                self.fallback_redemptions.insert(key, true);
                let mut deliveries: Vec<PrizeDelivery> = Vec::new();
                deliveries.push(PrizeDelivery::Tokens { box_index: it.box_index, amount: it.amount });
                receipt = RedemptionReceipt { deliveries, restorations: Vec::new() };
            },
            crate::config::PrizeKind::LimitedEditionPrint => {
                let rem = match self.authority_holds.get(&b) {
                    Some(rem) => *rem,
                    None => {
                        return Err(MetaplexError::MintAuthorityMismatch);
                    },
                };
                self.fallback_redemptions.insert(key, true);
                let mut deliveries: Vec<PrizeDelivery> = Vec::new();
                deliveries.push(PrizeDelivery::PrintedEdition { box_index: it.box_index });
                let mut restorations: Vec<AuthorityRestoration> = Vec::new();
                if rem <= 1 {
                    let tkt = match self.validation_tickets.get(&b) {
                        Some(tkt) => *tkt,
                        None => {
                            proof {
                                assert(false);
                            }
                            SafetyDepositValidationTicket { metadata: 0, authority_reserved: false }
                        },
                    };
                    self.authority_holds.remove(&b);
                    let orig = match self.original_authority_lookups.remove(&tkt.metadata) {
                        Some(v) => v,
                        None => {
                            proof {
                                assert(false);
                            }
                            0
                        },
                    };
                    restorations.push(
                        AuthorityRestoration { box_index: it.box_index, metadata: tkt.metadata, to: orig },
                    );
                } else {
                    self.authority_holds.insert(b, rem - 1);
                }
                receipt = RedemptionReceipt { deliveries, restorations };
            },
            crate::config::PrizeKind::FullRightsTransfer => {
                let held = self.authority_holds.contains_key(&b);
                if !held && self.validation_tickets.contains_key(&b) {
                    let reserved = match self.validation_tickets.get(&b) {
                        Some(tkt) => tkt.authority_reserved,
                        None => {
                            proof {
                                assert(false);
                            }
                            false
                        },
                    };
                    if reserved {
                        return Err(MetaplexError::AuthorityAlreadyReleased);
                    }
                }
                self.fallback_redemptions.insert(key, true);
                let mut deliveries: Vec<PrizeDelivery> = Vec::new();
                if held {
                    let tkt = match self.validation_tickets.get(&b) {
                        Some(tkt) => *tkt,
                        None => {
                            proof {
                                assert(false);
                            }
                            SafetyDepositValidationTicket { metadata: 0, authority_reserved: false }
                        },
                    };
                    self.authority_holds.remove(&b);
                    let _released = self.original_authority_lookups.remove(&tkt.metadata);
                    deliveries.push(
                        PrizeDelivery::FullRights {
                            box_index: it.box_index,
                            amount: it.amount,
                            handover: Some(
                                AuthorityHandover { metadata: tkt.metadata, to: new_authority },
                            ),
                        },
                    );
                } else {
                    deliveries.push(
                        PrizeDelivery::FullRights {
                            box_index: it.box_index,
                            amount: it.amount,
                            handover: None,
                        },
                    );
                }
                receipt = RedemptionReceipt { deliveries, restorations: Vec::new() };
            },
        }
        self.authorities_outstanding = self.authority_holds.len();
        if matches!(self.status, AuctionManagerStatus::Disbursing) && self.authority_holds.len() == 0 {
            self.status = AuctionManagerStatus::Finished;
        }
        Ok(receipt)
    }
}

/// Does redeeming this slot hand over (and so drop) box `b`'s reserved
/// authority on the full-rights path?
pub open spec fn touches_frt(it: PrizeSlot, b: u64) -> bool {
    it.kind is FullRightsTransfer && it.box_index as u64 == b
}

/// The authority holds after redeeming the first `n` slots of a
/// full-rights-transfer tier: every validated slot exits its box's hold
/// entirely.
pub open spec fn frt_holds_after(items: Seq<PrizeSlot>, oh: Map<u64, u64>, n: int) -> Map<u64, u64>
    decreases n,
{
    if n <= 0 {
        oh
    } else {
        let h = frt_holds_after(items, oh, n - 1);
        let it = items[n - 1];
        let b = it.box_index as u64;
        if it.kind is FullRightsTransfer && oh.contains_key(b) {
            h.remove(b)
        } else {
            h
        }
    }
}

/// Does redeeming this full-rights slot consume the original-authority
/// record at key `m`?
pub open spec fn frt_clears_lookup(
    it: PrizeSlot,
    oh: Map<u64, u64>,
    tk: Map<u64, SafetyDepositValidationTicket>,
    m: u64,
) -> bool {
    &&& it.kind is FullRightsTransfer
    &&& oh.contains_key(it.box_index as u64)
    &&& tk.contains_key(it.box_index as u64)
    &&& tk[it.box_index as u64].metadata == m
}

/// The original-authority records after redeeming the first `n` slots of a
/// full-rights-transfer tier.
pub open spec fn frt_lookups_after(
    items: Seq<PrizeSlot>,
    oh: Map<u64, u64>,
    tk: Map<u64, SafetyDepositValidationTicket>,
    ol: Map<u64, AccountKey>,
    n: int,
) -> Map<u64, AccountKey>
    decreases n,
{
    if n <= 0 {
        ol
    } else {
        let l = frt_lookups_after(items, oh, tk, ol, n - 1);
        let it = items[n - 1];
        let b = it.box_index as u64;
        if it.kind is FullRightsTransfer && oh.contains_key(b) && tk.contains_key(b) {
            l.remove(tk[b].metadata)
        } else {
            l
        }
    }
}

/// The movement owed for one slot of a full-rights-transfer tier: the asset
/// leaves the box, and when the box's authority is still held, its permanent
/// metadata authority is handed to the caller-supplied new authority. A box
/// that was never validated is skipped for the handover (the decommission
/// path's documented caveat).
pub open spec fn frt_delivery(
    it: PrizeSlot,
    oh: Map<u64, u64>,
    tk: Map<u64, SafetyDepositValidationTicket>,
    new_authority: AccountKey,
) -> PrizeDelivery {
    let b = it.box_index as u64;
    PrizeDelivery::FullRights {
        box_index: it.box_index,
        amount: it.amount,
        handover: if oh.contains_key(b) && tk.contains_key(b) {
            Some(AuthorityHandover { metadata: tk[b].metadata, to: new_authority })
        } else {
            None
        },
    }
}

/// Pointwise description of `frt_holds_after`.
pub proof fn lemma_frt_holds_after_point(items: Seq<PrizeSlot>, oh: Map<u64, u64>, n: int, b: u64)
    requires
        0 <= n <= items.len(),
    ensures
        !oh.contains_key(b) ==> !frt_holds_after(items, oh, n).contains_key(b),
        oh.contains_key(b) && !(exists|j: int| 0 <= j < n && touches_frt(#[trigger] items[j], b))
            ==> frt_holds_after(items, oh, n).contains_key(b)
                && frt_holds_after(items, oh, n)[b] == oh[b],
        oh.contains_key(b) && (exists|j: int| 0 <= j < n && touches_frt(#[trigger] items[j], b))
            ==> !frt_holds_after(items, oh, n).contains_key(b),
    decreases n,
{
    if n > 0 {
        lemma_frt_holds_after_point(items, oh, n - 1, b);
        if exists|j: int| 0 <= j < n && touches_frt(#[trigger] items[j], b) {
            let j = choose|j: int| 0 <= j < n && touches_frt(#[trigger] items[j], b);
            if j < n - 1 {
                assert(exists|k: int| 0 <= k < n - 1 && touches_frt(#[trigger] items[k], b));
            }
        }
    }
}

/// Pointwise description of `frt_lookups_after`.
pub proof fn lemma_frt_lookups_after_point(
    items: Seq<PrizeSlot>,
    oh: Map<u64, u64>,
    tk: Map<u64, SafetyDepositValidationTicket>,
    ol: Map<u64, AccountKey>,
    n: int,
    m: u64,
)
    requires
        0 <= n <= items.len(),
    ensures
        !(exists|j: int| 0 <= j < n && frt_clears_lookup(#[trigger] items[j], oh, tk, m))
            ==> frt_lookups_after(items, oh, tk, ol, n).contains_key(m) == ol.contains_key(m)
                && (ol.contains_key(m) ==> frt_lookups_after(items, oh, tk, ol, n)[m] == ol[m]),
        (exists|j: int| 0 <= j < n && frt_clears_lookup(#[trigger] items[j], oh, tk, m))
            ==> !frt_lookups_after(items, oh, tk, ol, n).contains_key(m),
    decreases n,
{
    if n > 0 {
        lemma_frt_lookups_after_point(items, oh, tk, ol, n - 1, m);
        if exists|j: int| 0 <= j < n && frt_clears_lookup(#[trigger] items[j], oh, tk, m) {
            let j = choose|j: int| 0 <= j < n && frt_clears_lookup(#[trigger] items[j], oh, tk, m);
            if j < n - 1 {
                assert(exists|k: int| 0 <= k < n - 1 && frt_clears_lookup(#[trigger] items[k], oh, tk, m));
            }
        }
    }
}

impl AuctionManager {
    /// A tier redeemable on the full-rights path: every slot is a
    /// full-rights transfer.
    pub open spec fn frt_tier(items: Seq<PrizeSlot>) -> bool {
        forall|i: int| 0 <= i < items.len() ==> (#[trigger] items[i]).kind is FullRightsTransfer
    }

    /// No validated slot of the tier has had its reserved authority handed
    /// over already.
    pub open spec fn frt_holds_ready(self, items: Seq<PrizeSlot>) -> bool {
        forall|i: int|
            0 <= i < items.len()
                && self.validation_tickets@.contains_key((#[trigger] items[i]).box_index as u64)
                && self.validation_tickets@[items[i].box_index as u64].authority_reserved
                ==> self.authority_holds@.contains_key(items[i].box_index as u64)
    }

    /// The exact condition under which a full-rights-transfer redemption
    /// succeeds.
    pub open spec fn redeem_frt_would_succeed(self, a: AuctionView, bidder: AccountKey) -> bool {
        &&& a.concluded
        &&& a.is_winner(bidder)
        &&& !self.main_prize_redeemed(bidder)
        &&& self.status is Running || self.status is Disbursing
        &&& a.rank_of(bidder) < self.settings.tiers().len()
        &&& Self::frt_tier(self.settings.tiers()[a.rank_of(bidder)])
        &&& self.frt_holds_ready(self.settings.tiers()[a.rank_of(bidder)])
    }

    /// The error a full-rights-transfer redemption fails with, by check
    /// order.
    pub open spec fn redeem_frt_error(self, a: AuctionView, bidder: AccountKey) -> MetaplexError {
        if !a.concluded {
            MetaplexError::AuctionNotEnded
        } else if !a.is_winner(bidder) {
            MetaplexError::NotWinner
        } else if self.main_prize_redeemed(bidder) {
            MetaplexError::AlreadyRedeemed
        } else if !(self.status is Running || self.status is Disbursing) {
            MetaplexError::InvalidState
        } else if !(a.rank_of(bidder) < self.settings.tiers().len()) {
            MetaplexError::InvalidWinningConfig
        } else if !Self::frt_tier(self.settings.tiers()[a.rank_of(bidder)]) {
            MetaplexError::PrizeKindMismatch
        } else {
            MetaplexError::AuthorityAlreadyReleased
        }
    }

    /// Full-rights-transfer redemption: as the standard path, but the prize
    /// is the unique master asset itself. Instead of minting an edition, the
    /// asset's permanent metadata authority is handed to the caller-supplied
    /// new authority, fully exiting the temporary hold the validator took; a
    /// box that was never validated (possible only after decommission) skips
    /// the handover. Marks the bidder's main-prize category redeemed and
    /// drives the status forward exactly as the standard path does.
    #[verifier::loop_isolation(false)]
    pub fn redeem_full_rights_transfer_bid(
        &mut self,
        a: &AuctionView,
        bidder: AccountKey,
        new_authority: AccountKey,
    ) -> (r: Result<RedemptionReceipt, MetaplexError>)
        requires
            old(self).wf(),
            a.well_formed(),
        ensures
            final(self).wf(),
            old(self).status.rank() <= final(self).status.rank(),
            r is Ok <==> old(self).redeem_frt_would_succeed(*a, bidder),
            r matches Err(e) ==> *final(self) == *old(self) && e == old(self).redeem_frt_error(
                *a,
                bidder,
            ),
            r matches Ok(receipt) ==> ({
                let rank = a.rank_of(bidder);
                let items = old(self).settings.tiers()[rank];
                let oh = old(self).authority_holds@;
                let tk = old(self).validation_tickets@;
                let ol = old(self).original_authority_lookups@;
                &&& receipt.deliveries@ == Seq::new(
                    items.len(),
                    |i: int| frt_delivery(items[i], oh, tk, new_authority),
                )
                &&& receipt.restorations@ == Seq::<AuthorityRestoration>::empty()
                &&& final(self).authority_holds@ == frt_holds_after(items, oh, items.len() as int)
                &&& final(self).original_authority_lookups@ == frt_lookups_after(
                    items, oh, tk, ol, items.len() as int,
                )
                &&& final(self).bid_redemption_tickets@ == old(self).bid_redemption_tickets@.insert(
                    bidder,
                    BidRedemptionTicket {
                        main_redeemed: true,
                        participation_redeemed: old(self).participation_prize_redeemed(bidder),
                    },
                )
                &&& final(self).status == status_after_redemption(
                    old(self).status,
                    final(self).authority_holds@.dom().len() == 0,
                )
                &&& final(self).validation_tickets@ == old(self).validation_tickets@
                &&& final(self).payout_tickets@ == old(self).payout_tickets@
                &&& final(self).claimed_bids@ == old(self).claimed_bids@
                &&& final(self).fallback_redemptions@ == old(self).fallback_redemptions@
                &&& final(self).escrow == old(self).escrow
                &&& final(self).participation_total == old(self).participation_total
                &&& final(self).printing_pool == old(self).printing_pool
                &&& final(self).printing_pool_populated == old(self).printing_pool_populated
                &&& final(self).settings == old(self).settings
                &&& final(self).authority == old(self).authority
            }),
    {
        if !a.concluded {
            return Err(MetaplexError::AuctionNotEnded);
        }
        let rank = match a.find_rank(bidder) {
            Some(rank) => rank,
            None => {
                return Err(MetaplexError::NotWinner);
            },
        };
        let prior = match self.bid_redemption_tickets.get(&bidder) {
            Some(t) => *t,
            None => BidRedemptionTicket { main_redeemed: false, participation_redeemed: false },
        };
        if prior.main_redeemed {
            return Err(MetaplexError::AlreadyRedeemed);
        }
        if !matches!(
            self.status,
            AuctionManagerStatus::Running | AuctionManagerStatus::Disbursing
        ) {
            return Err(MetaplexError::InvalidState);
        }
        if rank >= self.settings.winning_configs.len() {
            return Err(MetaplexError::InvalidWinningConfig);
        }
        let items = self.copy_tier(rank);
        let mut i: usize = 0;
        while i < items.len()
            invariant
                i <= items@.len(),
                forall|j: int| 0 <= j < i ==> (#[trigger] items@[j]).kind is FullRightsTransfer,
            decreases items@.len() - i,
        {
            if !matches!(items[i].kind, crate::config::PrizeKind::FullRightsTransfer) {
                proof {
                    assert(self.settings.tiers()[a.rank_of(bidder)][i as int].kind
                        !is FullRightsTransfer);
                }
                return Err(MetaplexError::PrizeKindMismatch);
            }
            i += 1;
        }
        let mut i: usize = 0;
        while i < items.len()
            invariant
                i <= items@.len(),
                forall|j: int|
                    0 <= j < i
                        && self.validation_tickets@.contains_key((#[trigger] items@[j]).box_index as u64)
                        && self.validation_tickets@[items@[j].box_index as u64].authority_reserved
                        ==> self.authority_holds@.contains_key(items@[j].box_index as u64),
            decreases items@.len() - i,
        {
            let b = items[i].box_index as u64;
            if self.validation_tickets.contains_key(&b) {
                let tkt = match self.validation_tickets.get(&b) {
                    Some(t) => *t,
                    None => {
                        proof {
                            assert(false);
                        }
                        SafetyDepositValidationTicket { metadata: 0, authority_reserved: false }
                    },
                };
                if tkt.authority_reserved && !self.authority_holds.contains_key(&b) {
                    proof {
                        let it = self.settings.tiers()[a.rank_of(bidder)][i as int];
                        assert(self.validation_tickets@.contains_key(it.box_index as u64));
                        assert(!self.authority_holds@.contains_key(it.box_index as u64));
                    }
                    return Err(MetaplexError::AuthorityAlreadyReleased);
                }
            }
            i += 1;
        }
        let ghost oh = self.authority_holds@;
        let ghost tk = self.validation_tickets@;
        let ghost ol = self.original_authority_lookups@;
        self.bid_redemption_tickets.insert(
            bidder,
            BidRedemptionTicket {
                main_redeemed: true,
                participation_redeemed: prior.participation_redeemed,
            },
        );
        let mut deliveries: Vec<PrizeDelivery> = Vec::new();
        let mut i: usize = 0;
        while i < items.len()
            invariant
                i <= items@.len(),
                items@ == old(self).settings.tiers()[a.rank_of(bidder)],
                old(self).wf(),
                forall|p: int, q: int|
                    0 <= p < q < items@.len()
                        ==> (#[trigger] items@[p]).box_index != (#[trigger] items@[q]).box_index,
                oh == old(self).authority_holds@,
                tk == old(self).validation_tickets@,
                ol == old(self).original_authority_lookups@,
                self.authority_holds@ == frt_holds_after(items@, oh, i as int),
                self.original_authority_lookups@ == frt_lookups_after(items@, oh, tk, ol, i as int),
                deliveries@.len() == i,
                forall|j: int|
                    0 <= j < i ==> deliveries@[j] == frt_delivery(items@[j], oh, tk, new_authority),
                self.validation_tickets@ == old(self).validation_tickets@,
                self.bid_redemption_tickets@ == old(self).bid_redemption_tickets@.insert(
                    bidder,
                    BidRedemptionTicket {
                        main_redeemed: true,
                        participation_redeemed: old(self).participation_prize_redeemed(bidder),
                    },
                ),
                self.payout_tickets@ == old(self).payout_tickets@,
                self.claimed_bids@ == old(self).claimed_bids@,
                self.fallback_redemptions@ == old(self).fallback_redemptions@,
                self.escrow == old(self).escrow,
                self.participation_total == old(self).participation_total,
                self.printing_pool == old(self).printing_pool,
                self.printing_pool_populated == old(self).printing_pool_populated,
                self.settings == old(self).settings,
                self.authority == old(self).authority,
                self.vault == old(self).vault,
                self.auction == old(self).auction,
                self.store == old(self).store,
                self.accept_payment == old(self).accept_payment,
                self.status == old(self).status,
                self.authorities_outstanding == old(self).authorities_outstanding,
            decreases items@.len() - i,
        {
            let it = items[i];
            let b = it.box_index as u64;
            proof {
                assert(forall|j: int| 0 <= j < i ==> !touches_frt(#[trigger] items@[j], b));
                lemma_frt_holds_after_point(items@, oh, i as int, b);
            }
            if self.authority_holds.contains_key(&b) {
                let tkt = match self.validation_tickets.get(&b) {
                    Some(t) => *t,
                    None => {
                        proof {
                            assert(false);
                        }
                        SafetyDepositValidationTicket { metadata: 0, authority_reserved: false }
                    },
                };
                proof {
                    assert(tk.contains_key(b) && tk[b] == tkt);
                    assert(ol.contains_key(tkt.metadata));
                    assert(forall|j: int| 0 <= j < i
                        ==> !frt_clears_lookup(#[trigger] items@[j], oh, tk, tkt.metadata)) by {
                        assert forall|j: int| 0 <= j < i
                            implies !frt_clears_lookup(#[trigger] items@[j], oh, tk, tkt.metadata) by {
                            let bj = items@[j].box_index as u64;
                            if items@[j].kind is FullRightsTransfer && oh.contains_key(bj)
                                && tk.contains_key(bj) {
                                assert(bj != b);
                                assert(tk[bj].metadata != tk[b].metadata);
                            }
                        }
                    }
                    lemma_frt_lookups_after_point(items@, oh, tk, ol, i as int, tkt.metadata);
                }
                self.authority_holds.remove(&b);
                let _released = self.original_authority_lookups.remove(&tkt.metadata);
                deliveries.push(
                    PrizeDelivery::FullRights {
                        box_index: it.box_index,
                        amount: it.amount,
                        handover: Some(AuthorityHandover { metadata: tkt.metadata, to: new_authority }),
                    },
                );
            } else {
                proof {
                    assert(!oh.contains_key(b));
                    assert(frt_holds_after(items@, oh, i + 1) =~= frt_holds_after(items@, oh, i as int));
                    assert(frt_lookups_after(items@, oh, tk, ol, i + 1)
                        =~= frt_lookups_after(items@, oh, tk, ol, i as int));
                }
                deliveries.push(
                    PrizeDelivery::FullRights {
                        box_index: it.box_index,
                        amount: it.amount,
                        handover: None,
                    },
                );
            }
            i += 1;
        }
        self.authorities_outstanding = self.authority_holds.len();
        if matches!(self.status, AuctionManagerStatus::Running) {
            self.status = AuctionManagerStatus::Disbursing;
        }
        if matches!(self.status, AuctionManagerStatus::Disbursing) && self.authority_holds.len() == 0 {
            self.status = AuctionManagerStatus::Finished;
        }
        proof {
            assert(deliveries@ =~= Seq::new(
                old(self).settings.tiers()[a.rank_of(bidder)].len(),
                |j: int| frt_delivery(
                    old(self).settings.tiers()[a.rank_of(bidder)][j],
                    oh,
                    tk,
                    new_authority,
                ),
            ));
            lemma_wf_after_frt_redemption(*old(self), *self, items@, oh, tk, ol);
        }
        Ok(RedemptionReceipt { deliveries, restorations: Vec::new() })
    }
}

impl AuctionManager {
    /// The exact condition under which a participation redemption succeeds.
    /// `paid` is what the caller has put up against the fixed price, if one
    /// is configured.
    pub open spec fn redeem_participation_would_succeed(
        self,
        a: AuctionView,
        bidder: AccountKey,
        paid: u64,
    ) -> bool {
        &&& a.concluded
        &&& self.settings.participation_config is Some
        &&& a.has_claim(bidder)
        &&& !self.participation_prize_redeemed(bidder)
        &&& self.status is Running || self.status is Disbursing
        &&& self.printing_pool >= 1
        &&& (self.settings.participation_config->0.fixed_price matches Some(p)
            ==> paid >= p && self.escrow + p <= u64::MAX && self.participation_total + p
                <= u64::MAX)
    }

    /// The error a participation redemption fails with, by check order.
    pub open spec fn redeem_participation_error(
        self,
        a: AuctionView,
        bidder: AccountKey,
        paid: u64,
    ) -> MetaplexError {
        if !a.concluded {
            MetaplexError::AuctionNotEnded
        } else if self.settings.participation_config is None {
            MetaplexError::ParticipationNotConfigured
        } else if !a.has_claim(bidder) {
            MetaplexError::NotWinner
        } else if self.participation_prize_redeemed(bidder) {
            MetaplexError::AlreadyRedeemed
        } else if !(self.status is Running || self.status is Disbursing) {
            MetaplexError::InvalidState
        } else if self.printing_pool < 1 {
            MetaplexError::PoolExhausted
        } else if self.settings.participation_config->0.fixed_price matches Some(p) && paid < p {
            MetaplexError::PaymentRequired
        } else {
            MetaplexError::NumericalOverflow
        }
    }

    /// Participation redemption: any bidder with a recorded claim — winner
    /// or not — may redeem the open-edition participation prize, at most
    /// once, while the pool is stocked. When a fixed price is configured the
    /// caller must put it up; exactly the price is drawn into escrow and
    /// counted toward the participation total. One printing token leaves the
    /// pool. Marks the bidder's participation category redeemed — the
    /// main-prize category is untouched — and drives the status forward
    /// exactly as the other redemption paths do. Returns the amount charged.
    pub fn redeem_participation_bid(
        &mut self,
        a: &AuctionView,
        bidder: AccountKey,
        paid: u64,
    ) -> (r: Result<u64, MetaplexError>)
        requires
            old(self).wf(),
            a.well_formed(),
        ensures
            final(self).wf(),
            old(self).status.rank() <= final(self).status.rank(),
            r is Ok <==> old(self).redeem_participation_would_succeed(*a, bidder, paid),
            r matches Err(e) ==> *final(self) == *old(self)
                && e == old(self).redeem_participation_error(*a, bidder, paid),
            r matches Ok(charged) ==> ({
                let price = match old(self).settings.participation_config->0.fixed_price {
                    Some(p) => p,
                    None => 0,
                };
                &&& charged == price
                &&& final(self).printing_pool == old(self).printing_pool - 1
                &&& final(self).escrow == old(self).escrow + price
                &&& final(self).participation_total == old(self).participation_total + price
                &&& final(self).bid_redemption_tickets@ == old(self).bid_redemption_tickets@.insert(
                    bidder,
                    BidRedemptionTicket {
                        main_redeemed: old(self).main_prize_redeemed(bidder),
                        participation_redeemed: true,
                    },
                )
                &&& final(self).status == status_after_redemption(
                    old(self).status,
                    old(self).authority_holds@.dom().len() == 0,
                )
                &&& final(self).validation_tickets@ == old(self).validation_tickets@
                &&& final(self).original_authority_lookups@ == old(self).original_authority_lookups@
                &&& final(self).authority_holds@ == old(self).authority_holds@
                &&& final(self).authorities_outstanding == old(self).authorities_outstanding
                &&& final(self).payout_tickets@ == old(self).payout_tickets@
                &&& final(self).claimed_bids@ == old(self).claimed_bids@
                &&& final(self).fallback_redemptions@ == old(self).fallback_redemptions@
                &&& final(self).printing_pool_populated == old(self).printing_pool_populated
                &&& final(self).settings == old(self).settings
                &&& final(self).authority == old(self).authority
            }),
    {
        if !a.concluded {
            return Err(MetaplexError::AuctionNotEnded);
        }
        let pc = match &self.settings.participation_config {
            Some(pc) => *pc,
            None => {
                return Err(MetaplexError::ParticipationNotConfigured);
            },
        };
        if !a.find_claim(bidder) {
            return Err(MetaplexError::NotWinner);
        }
        let prior = match self.bid_redemption_tickets.get(&bidder) {
            Some(t) => *t,
            None => BidRedemptionTicket { main_redeemed: false, participation_redeemed: false },
        };
        if prior.participation_redeemed {
            return Err(MetaplexError::AlreadyRedeemed);
        }
        if !matches!(
            self.status,
            AuctionManagerStatus::Running | AuctionManagerStatus::Disbursing
        ) {
            return Err(MetaplexError::InvalidState);
        }
        if self.printing_pool < 1 {
            return Err(MetaplexError::PoolExhausted);
        }
        let price: u64 = match pc.fixed_price {
            Some(p) => {
                if paid < p {
                    return Err(MetaplexError::PaymentRequired);
                }
                p
            },
            None => 0,
        };
        let escrow_after = match self.escrow.checked_add(price) {
            Some(v) => v,
            None => {
                return Err(MetaplexError::NumericalOverflow);
            },
        };
        let participation_after = match self.participation_total.checked_add(price) {
            Some(v) => v,
            None => {
                return Err(MetaplexError::NumericalOverflow);
            },
        };
        self.printing_pool = self.printing_pool - 1;
        self.escrow = escrow_after;
        self.participation_total = participation_after;
        self.bid_redemption_tickets.insert(
            bidder,
            BidRedemptionTicket {
                main_redeemed: prior.main_redeemed,
                participation_redeemed: true,
            },
        );
        if matches!(self.status, AuctionManagerStatus::Running) {
            self.status = AuctionManagerStatus::Disbursing;
        }
        if matches!(self.status, AuctionManagerStatus::Disbursing) && self.authority_holds.len() == 0 {
            self.status = AuctionManagerStatus::Finished;
        }
        Ok(price)
    }
}

/// The hold-, ticket- and lookup-related clauses of `wf` survive a
/// full-rights redemption.
proof fn lemma_wf_after_frt_redemption(
    pre: AuctionManager,
    post: AuctionManager,
    items: Seq<PrizeSlot>,
    oh: Map<u64, u64>,
    tk: Map<u64, SafetyDepositValidationTicket>,
    ol: Map<u64, AccountKey>,
)
    requires
        pre.wf(),
        oh == pre.authority_holds@,
        tk == pre.validation_tickets@,
        ol == pre.original_authority_lookups@,
        post.authority_holds@ == frt_holds_after(items, oh, items.len() as int),
        post.original_authority_lookups@ == frt_lookups_after(items, oh, tk, ol, items.len() as int),
        post.validation_tickets@ == pre.validation_tickets@,
        post.settings == pre.settings,
    ensures
        forall|b: u64| post.authority_holds@.contains_key(b)
            ==> #[trigger] post.authority_holds@[b] >= 1,
        forall|b: u64| #[trigger] post.authority_holds@.contains_key(b)
            ==> oh.contains_key(b)
                && post.validation_tickets@.contains_key(b)
                && post.validation_tickets@[b].authority_reserved
                && post.original_authority_lookups@.contains_key(post.validation_tickets@[b].metadata),
        forall|b1: u64, b2: u64|
            #[trigger] post.authority_holds@.contains_key(b1)
                && #[trigger] post.authority_holds@.contains_key(b2) && b1 != b2
                ==> post.validation_tickets@[b1].metadata != post.validation_tickets@[b2].metadata,
{
    let n = items.len() as int;
    assert forall|b: u64| #[trigger] post.authority_holds@.contains_key(b) implies oh.contains_key(
        b,
    ) && post.authority_holds@[b] >= 1 by {
        lemma_frt_holds_after_point(items, oh, n, b);
    }
    assert forall|b: u64| #[trigger] post.authority_holds@.contains_key(b) implies
        post.validation_tickets@.contains_key(b) && post.validation_tickets@[b].authority_reserved
            && post.original_authority_lookups@.contains_key(post.validation_tickets@[b].metadata) by {
        lemma_frt_holds_after_point(items, oh, n, b);
        let m = tk[b].metadata;
        assert forall|j: int| 0 <= j < n implies !frt_clears_lookup(#[trigger] items[j], oh, tk, m) by {
            let bj = items[j].box_index as u64;
            if items[j].kind is FullRightsTransfer && oh.contains_key(bj) && tk.contains_key(bj) {
                if bj == b {
                    assert(touches_frt(items[j], b));
                    assert(!post.authority_holds@.contains_key(b));
                } else {
                    assert(tk[bj].metadata != m);
                }
            }
        }
        lemma_frt_lookups_after_point(items, oh, tk, ol, n, m);
    }
}

/// The hold-, ticket- and lookup-related clauses of `wf` survive a
/// standard-path redemption.
proof fn lemma_wf_after_le_redemption(
    pre: AuctionManager,
    post: AuctionManager,
    items: Seq<PrizeSlot>,
    oh: Map<u64, u64>,
    tk: Map<u64, SafetyDepositValidationTicket>,
    ol: Map<u64, AccountKey>,
)
    requires
        pre.wf(),
        oh == pre.authority_holds@,
        tk == pre.validation_tickets@,
        ol == pre.original_authority_lookups@,
        post.authority_holds@ == le_holds_after(items, oh, items.len() as int),
        post.original_authority_lookups@ == le_lookups_after(items, oh, tk, ol, items.len() as int),
        post.validation_tickets@ == pre.validation_tickets@,
        post.settings == pre.settings,
        forall|p: int, q: int|
            0 <= p < q < items.len()
                ==> (#[trigger] items[p]).box_index != (#[trigger] items[q]).box_index,
    ensures
        forall|b: u64| post.authority_holds@.contains_key(b)
            ==> #[trigger] post.authority_holds@[b] >= 1,
        forall|b: u64| #[trigger] post.authority_holds@.contains_key(b)
            ==> oh.contains_key(b)
                && post.validation_tickets@.contains_key(b)
                && post.validation_tickets@[b].authority_reserved
                && post.original_authority_lookups@.contains_key(post.validation_tickets@[b].metadata),
        forall|b1: u64, b2: u64|
            #[trigger] post.authority_holds@.contains_key(b1)
                && #[trigger] post.authority_holds@.contains_key(b2) && b1 != b2
                ==> post.validation_tickets@[b1].metadata != post.validation_tickets@[b2].metadata,
{
    let n = items.len() as int;
    assert forall|b: u64| #[trigger] post.authority_holds@.contains_key(b) implies oh.contains_key(
        b,
    ) && post.authority_holds@[b] >= 1 by {
        lemma_le_holds_after_point(items, oh, n, b);
    }
    assert forall|b: u64| #[trigger] post.authority_holds@.contains_key(b) implies
        post.validation_tickets@.contains_key(b) && post.validation_tickets@[b].authority_reserved
            && post.original_authority_lookups@.contains_key(post.validation_tickets@[b].metadata) by {
        lemma_le_holds_after_point(items, oh, n, b);
        let m = tk[b].metadata;
        assert forall|j: int| 0 <= j < n implies !clears_lookup(#[trigger] items[j], oh, tk, m) by {
            if le_releases(items[j], oh) && tk.contains_key(items[j].box_index as u64) {
                let bj = items[j].box_index as u64;
                if bj == b {
                    // box b survived, so no redeemed slot spent its last use
                    assert(touches_le(items[j], b));
                    assert(oh[b] <= 1);
                    assert(!post.authority_holds@.contains_key(b));
                } else {
                    assert(tk[bj].metadata != m);
                }
            }
        }
        lemma_le_lookups_after_point(items, oh, tk, ol, n, m);
    }
}

} // verus!
