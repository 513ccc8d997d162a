//! Auction-manager configuration: the ordered list of winning-config tiers,
//! each an ordered list of prize-slot descriptors, and the optional
//! participation-prize configuration.

use vstd::prelude::*;

verus! {

/// An account address. Every durable record of the auction manager is
/// addressable deterministically from a tuple of these keys, which is what
/// makes the existence-checked tickets idempotent without a separate index.
pub type AccountKey = u64;

/// The declared kind of a prize slot.
#[derive(Clone, Copy, PartialEq, Eq, Structural, Debug)]
pub enum PrizeKind {
    /// Tokens are moved out of the safety-deposit store to the winner.
    TokenTransfer,
    /// The unique master asset and its permanent metadata authority move to
    /// the winner.
    FullRightsTransfer,
    /// A new numbered edition is minted for the winner under the printing
    /// authority the validator reserved for the auction manager.
    LimitedEditionPrint,
}

impl PrizeKind {
    /// Kinds whose safety-deposit box has its authority temporarily
    /// reassigned to the auction manager at validation time.
    pub open spec fn needs_authority(self) -> bool {
        self !is TokenTransfer
    }
}

/// One configured prize slot: a position inside a winning-config tier.
#[derive(Clone, Copy, PartialEq, Eq, Structural, Debug)]
pub struct PrizeSlot {
    /// Index of the safety-deposit box inside the vault that holds the asset.
    pub box_index: u8,
    /// Number of tokens delivered from the box for a `TokenTransfer` slot.
    pub amount: u64,
    /// Declared prize kind of the slot.
    pub kind: PrizeKind,
}

/// One winning-config tier: the prizes awarded to the bidder at one winning
/// rank. Tier `r` of the configuration belongs to rank `r` of the auction.
#[derive(Clone, Debug)]
pub struct WinningConfig {
    pub items: Vec<PrizeSlot>,
}

/// Configuration of the optional participation prize: an unranked open
/// edition redeemable once by any bidder with a recorded claim.
#[derive(Clone, Copy, PartialEq, Eq, Structural, Debug)]
pub struct ParticipationConfig {
    /// Safety-deposit box holding the participation master asset.
    pub box_index: u8,
    /// Fixed price a claimant must have paid into escrow, if any.
    pub fixed_price: Option<u64>,
}

/// The full configuration an auction manager is created with.
#[derive(Clone, Debug)]
pub struct AuctionManagerSettings {
    /// Ordered winning-config tiers, one per winning rank.
    pub winning_configs: Vec<WinningConfig>,
    /// Participation-prize configuration, if the auction has one.
    pub participation_config: Option<ParticipationConfig>,
}

impl AuctionManagerSettings {
    /// The tiers as a sequence of sequences of slots.
    pub open spec fn tiers(self) -> Seq<Seq<PrizeSlot>> {
        Seq::new(self.winning_configs@.len(), |t: int| self.winning_configs@[t].items@)
    }

    /// A well-formed configuration: tier and item positions fit in the
    /// one-byte indices every ticket key uses, and no tier names the same
    /// safety-deposit box twice, so that one redemption touches each box at
    /// most once.
    pub open spec fn well_formed(self) -> bool {
        &&& self.winning_configs@.len() <= 256
        &&& forall|t: int| 0 <= t < self.tiers().len() ==> (#[trigger] self.tiers()[t]).len() <= 256
        &&& forall|t: int, i: int, j: int|
            0 <= t < self.tiers().len() && 0 <= i < j < self.tiers()[t].len()
                ==> (#[trigger] self.tiers()[t][i]).box_index != (#[trigger] self.tiers()[t][j]).box_index
    }

    /// Does any slot of any tier reference box `b`?
    pub open spec fn references_box(self, b: u8) -> bool {
        exists|t: int, i: int|
            0 <= t < self.tiers().len() && 0 <= i < self.tiers()[t].len()
                && (#[trigger] self.tiers()[t][i]).box_index == b
    }

    /// Number of slots in the first `n` items of one tier that hold box `b`
    /// under a kind that reserves its authority.
    pub open spec fn authority_uses_in_items(items: Seq<PrizeSlot>, b: u8, n: int) -> int
        decreases n,
    {
        if n <= 0 {
            0
        } else {
            Self::authority_uses_in_items(items, b, n - 1)
                + if items[n - 1].box_index == b && items[n - 1].kind.needs_authority() { 1int } else { 0int }
        }
    }

    /// Number of slots in the first `t` tiers that hold box `b` under a kind
    /// that reserves its authority: how many redemptions must pass before the
    /// reserved authority of box `b` can be returned.
    pub open spec fn authority_uses_in_tiers(self, b: u8, t: int) -> int
        decreases t,
    {
        if t <= 0 {
            0
        } else {
            self.authority_uses_in_tiers(b, t - 1)
                + Self::authority_uses_in_items(self.tiers()[t - 1], b, self.tiers()[t - 1].len() as int)
        }
    }

    /// Total reserved-authority uses of box `b` over the whole configuration.
    pub open spec fn authority_uses(self, b: u8) -> int {
        self.authority_uses_in_tiers(b, self.tiers().len() as int)
    }

    /// Does validating box `b` reserve an authority for the auction manager?
    pub open spec fn reserves_authority(self, b: u8) -> bool {
        self.authority_uses(b) > 0
    }

    /// Checks `well_formed` by inspection, so that a manager can refuse a
    /// malformed configuration at creation time.
    pub fn check_well_formed(&self) -> (r: bool)
        ensures
            r == self.well_formed(),
    {
        if self.winning_configs.len() > 256 {
            return false;
        }
        let mut t: usize = 0;
        while t < self.winning_configs.len()
            invariant
                t <= self.winning_configs@.len() <= 256,
                forall|u: int| 0 <= u < t ==> (#[trigger] self.tiers()[u]).len() <= 256,
                forall|u: int, i: int, j: int|
                    0 <= u < t && 0 <= i < j < self.tiers()[u].len()
                        ==> (#[trigger] self.tiers()[u][i]).box_index != (#[trigger] self.tiers()[u][j]).box_index,
            decreases self.winning_configs@.len() - t,
        {
            let items = &self.winning_configs[t].items;
            proof {
                assert(items@ == self.tiers()[t as int]);
            }
            if items.len() > 256 {
                return false;
            }
            let mut i: usize = 0;
            while i < items.len()
                invariant
                    t < self.winning_configs@.len(),
                    items@ == self.tiers()[t as int],
                    i <= items@.len() <= 256,
                    forall|p: int, j: int|
                        0 <= p < j < items@.len() && j < i
                            ==> (#[trigger] items@[p]).box_index != (#[trigger] items@[j]).box_index,
                decreases items@.len() - i,
            {
                let mut j: usize = 0;
                while j < i
                    invariant
                        t < self.winning_configs@.len(),
                        items@ == self.tiers()[t as int],
                        j <= i < items@.len(),
                        forall|p: int| 0 <= p < j ==> (#[trigger] items@[p]).box_index != items@[i as int].box_index,
                    decreases i - j,
                {
                    if items[j].box_index == items[i].box_index {
                        proof {
                            assert(self.tiers()[t as int][j as int].box_index
                                == self.tiers()[t as int][i as int].box_index);
                        }
                        return false;
                    }
                    j += 1;
                }
                i += 1;
            }
            t += 1;
        }
        true
    }

    /// Counts the reserved-authority uses of box `b` by inspection.
    pub fn count_authority_uses(&self, b: u8) -> (r: u64)
        requires
            self.well_formed(),
        ensures
            r as int == self.authority_uses(b),
    {
        let mut count: u64 = 0;
        let mut t: usize = 0;
        while t < self.winning_configs.len()
            invariant
                self.well_formed(),
                t <= self.winning_configs@.len(),
                count as int == self.authority_uses_in_tiers(b, t as int),
                count as int <= 256 * (t as int),
            decreases self.winning_configs@.len() - t,
        {
            let items = &self.winning_configs[t].items;
            let mut i: usize = 0;
            while i < items.len()
                invariant
                    self.well_formed(),
                    t < self.winning_configs@.len(),
                    items@ == self.tiers()[t as int],
                    i <= items@.len() <= 256,
                    count as int == self.authority_uses_in_tiers(b, t as int)
                        + Self::authority_uses_in_items(items@, b, i as int),
                    count as int <= 256 * (t as int) + (i as int),
                decreases items@.len() - i,
            {
                if items[i].box_index == b && !matches!(items[i].kind, PrizeKind::TokenTransfer) {
                    count += 1;
                }
                i += 1;
            }
            t += 1;
        }
        count
    }
}

} // verus!
