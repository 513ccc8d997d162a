//! Read-only views of the external collaborators: the auction engine's
//! outcome, an asset's metadata as the vault and metadata engines expose it,
//! and the administrative whitelist answer. The core treats these as ground
//! truth and re-derives every decision from them plus its own durable state.

use vstd::prelude::*;
use crate::config::AccountKey;

verus! {

/// One entry of an asset's creator list, with its royalty share in basis
/// points. A well-formed creator list's shares sum to 10000.
#[derive(Clone, Copy, PartialEq, Eq, Structural, Debug)]
pub struct Creator {
    pub key: AccountKey,
    pub share_bps: u16,
}

/// What the validator reads about a safety-deposit box and its asset from the
/// vault and asset-metadata engines.
#[derive(Clone, Debug)]
pub struct BoxInspection {
    /// The asset-metadata account of the deposited asset.
    pub metadata: AccountKey,
    /// The metadata authority at inspection time; recorded so it can be
    /// restored or forwarded during redemption.
    pub metadata_authority: AccountKey,
    /// Creator list of the asset's metadata.
    pub creators: Vec<Creator>,
    /// Tokens sitting in the box's storage account.
    pub token_count: u64,
    /// Whether the box holds the unique master asset itself.
    pub is_master_edition: bool,
    /// Whether the box holds a limited-edition printing mint.
    pub is_printing_mint: bool,
}

impl BoxInspection {
    /// Does the asset's creator list contain `creator`?
    pub open spec fn has_creator(self, creator: AccountKey) -> bool {
        exists|i: int| 0 <= i < self.creators@.len() && (#[trigger] self.creators@[i]).key == creator
    }

    /// Checks `has_creator` by inspection.
    pub fn find_creator(&self, creator: AccountKey) -> (r: bool)
        ensures
            r == self.has_creator(creator),
    {
        let mut i: usize = 0;
        while i < self.creators.len()
            invariant
                i <= self.creators@.len(),
                forall|j: int| 0 <= j < i ==> (#[trigger] self.creators@[j]).key != creator,
            decreases self.creators@.len() - i,
        {
            if self.creators[i].key == creator {
                return true;
            }
            i += 1;
        }
        false
    }
}

/// The sealed outcome of the external auction: who won at which rank, for how
/// much, and which bidders hold a recorded claim at all.
#[derive(Clone, Debug)]
pub struct AuctionView {
    /// Has the external auction concluded?
    pub concluded: bool,
    /// Winning bidders by rank; rank `r` wins winning-config tier `r`.
    pub winners: Vec<AccountKey>,
    /// Winning bid amount by rank, aligned with `winners`.
    pub winning_bids: Vec<u64>,
    /// Every bidder with a recorded claim, winners included; any of them may
    /// redeem the participation prize.
    pub claimants: Vec<AccountKey>,
}

impl AuctionView {
    /// A consistent outcome: one bid amount per winner, and no bidder at two
    /// ranks, so a bidder's rank is unambiguous.
    pub open spec fn well_formed(self) -> bool {
        &&& self.winners@.len() == self.winning_bids@.len()
        &&& forall|i: int, j: int|
            0 <= i < j < self.winners@.len()
                ==> #[trigger] self.winners@[i] != #[trigger] self.winners@[j]
    }

    /// Does `bidder` hold the winning claim at some rank?
    pub open spec fn is_winner(self, bidder: AccountKey) -> bool {
        exists|i: int| 0 <= i < self.winners@.len() && #[trigger] self.winners@[i] == bidder
    }

    /// The rank `bidder` won. Meaningful only under `is_winner`; unique by
    /// `well_formed`.
    pub open spec fn rank_of(self, bidder: AccountKey) -> int {
        choose|i: int| 0 <= i < self.winners@.len() && #[trigger] self.winners@[i] == bidder
    }

    /// Does `bidder` hold a recorded claim?
    pub open spec fn has_claim(self, bidder: AccountKey) -> bool {
        exists|i: int| 0 <= i < self.claimants@.len() && #[trigger] self.claimants@[i] == bidder
    }

    /// Looks up the rank of `bidder`, or `None` when `bidder` won nothing.
    pub fn find_rank(&self, bidder: AccountKey) -> (r: Option<usize>)
        requires
            self.well_formed(),
        ensures
            match r {
                Some(rank) => self.is_winner(bidder) && rank == self.rank_of(bidder)
                    && rank < self.winners@.len(),
                None => !self.is_winner(bidder),
            },
    {
        let mut i: usize = 0;
        while i < self.winners.len()
            invariant
                self.well_formed(),
                i <= self.winners@.len(),
                forall|j: int| 0 <= j < i ==> #[trigger] self.winners@[j] != bidder,
            decreases self.winners@.len() - i,
        {
            if self.winners[i] == bidder {
                proof {
                    let k = self.rank_of(bidder);
                    assert(self.winners@[k] == bidder);
                    assert(k == i as int);
                }
                return Some(i);
            }
            i += 1;
        }
        None
    }

    /// Checks `has_claim` by inspection.
    pub fn find_claim(&self, bidder: AccountKey) -> (r: bool)
        ensures
            r == self.has_claim(bidder),
    {
        let mut i: usize = 0;
        while i < self.claimants.len()
            invariant
                i <= self.claimants@.len(),
                forall|j: int| 0 <= j < i ==> #[trigger] self.claimants@[j] != bidder,
            decreases self.claimants@.len() - i,
        {
            if self.claimants[i] == bidder {
                return true;
            }
            i += 1;
        }
        false
    }
}

} // verus!
