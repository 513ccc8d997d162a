//! Core state of the auction manager: its lifecycle status and the error
//! taxonomy shared by every operation.

use vstd::prelude::*;

verus! {

/// Lifecycle status of an auction manager. The status only ever advances
/// through the total order `Initialized < Validated < Running < Disbursing <
/// Finished`; `Decommissioned` is an escape hatch reachable only from
/// `Initialized`, and, like `Finished`, is never left again.
#[derive(Clone, Copy, PartialEq, Eq, Structural, Debug)]
pub enum AuctionManagerStatus {
    Initialized,
    Validated,
    Running,
    Disbursing,
    Finished,
    Decommissioned,
}

impl AuctionManagerStatus {
    /// Position of a status in the forward order. `Decommissioned` sits beside
    /// `Disbursing`: decommissioning jumps a manager straight to a disbursable
    /// position, and nothing ever moves it further.
    pub open spec fn rank(self) -> int {
        match self {
            AuctionManagerStatus::Initialized => 0,
            AuctionManagerStatus::Validated => 1,
            AuctionManagerStatus::Running => 2,
            AuctionManagerStatus::Disbursing => 3,
            AuctionManagerStatus::Decommissioned => 3,
            AuctionManagerStatus::Finished => 4,
        }
    }

    /// A status from which redeemed prizes may be disbursed and payouts
    /// collected: `Disbursing`, `Finished`, or `Decommissioned`.
    pub open spec fn is_disbursable(self) -> bool {
        match self {
            AuctionManagerStatus::Disbursing => true,
            AuctionManagerStatus::Finished => true,
            AuctionManagerStatus::Decommissioned => true,
            _ => false,
        }
    }

    /// Terminal statuses accept no further prize-affecting transition.
    pub open spec fn is_terminal(self) -> bool {
        self is Finished || self is Decommissioned
    }
}

/// Everything an operation of the auction manager can reject a call with.
/// Every error leaves all durable state exactly as it was.
#[derive(Clone, Copy, PartialEq, Eq, Structural, Debug)]
pub enum MetaplexError {
    /// A validation ticket already exists for this safety-deposit box.
    AlreadyValidated,
    /// The supplied creator proof does not match a creator of the asset,
    /// or the creator is not whitelisted for the manager's store.
    CreatorMismatch,
    /// The safety-deposit box contents disagree with the declared prize kind.
    PrizeKindMismatch,
    /// The participation printing pool already holds tokens.
    AlreadyPopulated,
    /// The auction manager does not hold the temporary authority expected.
    MintAuthorityMismatch,
    /// The bidder already redeemed this prize category.
    AlreadyRedeemed,
    /// The bidder holds no winning claim at any rank.
    NotWinner,
    /// The external auction has not yet concluded.
    AuctionNotEnded,
    /// The manager's status does not admit this operation.
    InvalidState,
    /// The full-rights authority for this box was already handed over.
    AuthorityAlreadyReleased,
    /// No participation prize was configured for this auction.
    ParticipationNotConfigured,
    /// The fixed participation price was not paid into escrow.
    PaymentRequired,
    /// The participation printing pool is empty.
    PoolExhausted,
    /// The creator index does not name an entry of the asset's creator list.
    InvalidCreatorIndex,
    /// The escrow balance cannot cover an owed payout delta; this indicates an
    /// upstream accounting defect and is never silently truncated.
    InsufficientEscrow,
    /// Payout was requested before the manager reached a disbursable status.
    StateNotDisbursingOrFinished,
    /// The caller is not the authority this operation is reserved to.
    WrongAuthority,
    /// The slot still has a valid bidder claim, so the auctioneer fallback
    /// may not take it.
    SlotHasWinner,
    /// A balance or counter would leave the representable range.
    NumericalOverflow,
    /// The configuration does not fit the call: an index names no configured
    /// tier or prize slot, a box is not part of the configuration, or two
    /// reserved-authority boxes would share one metadata record.
    InvalidWinningConfig,
}

} // verus!
