//! The argument types carried by the program's instructions. The engine's
//! entry points take these same values, so an instruction's payload maps
//! one-to-one onto a call.

use vstd::prelude::*;
use crate::config::AuctionManagerSettings;

verus! {

/// Arguments of the set-store administrative instruction.
#[derive(Clone, Copy, PartialEq, Eq, Structural, Debug)]
pub struct SetStoreArgs {
    /// Open store: anybody may publish; closed: whitelist only.
    pub public: bool,
}

/// Arguments of the set-whitelisted-creator administrative instruction.
#[derive(Clone, Copy, PartialEq, Eq, Structural, Debug)]
pub struct SetWhitelistedCreatorArgs {
    pub activated: bool,
}

/// Arguments of the payout instruction: which prize slot the payout is for
/// (`None` twice means the participation prize) and which creator-list entry
/// is paid (`None` when the asset has no creator list; the auctioneer is paid
/// instead).
#[derive(Clone, Copy, Debug)]
pub struct EmptyPaymentAccountArgs {
    pub winning_config_index: Option<u8>,
    pub winning_config_item_index: Option<u8>,
    pub creator_index: Option<u8>,
}

/// Which redemption algorithm the auctioneer fallback proxies into.
#[derive(Clone, Copy, PartialEq, Eq, Structural, Debug)]
pub enum ProxyCallAddress {
    RedeemBid,
    RedeemFullRightsTransferBid,
}

/// Arguments of the auctioneer-fallback instruction: the slot position
/// inside its tier, and the redemption path to proxy into.
#[derive(Clone, Copy, PartialEq, Eq, Structural, Debug)]
pub struct RedeemUnusedWinningConfigItemsAsAuctioneerArgs {
    pub winning_config_item_index: u8,
    pub proxy_call: ProxyCallAddress,
}

/// Instructions supported by the auction-manager program.
#[derive(Clone, Debug)]
pub enum MetaplexInstruction {
    /// Initializes an auction manager over a vault and a sealed auction.
    InitAuctionManager(AuctionManagerSettings),
    /// One-time validation of a safety-deposit box against its declared
    /// prize configuration.
    ValidateSafetyDepositBox,
    /// Standard redemption of a winning bid.
    RedeemBid,
    /// Redemption of a winning bid for a full-rights-transfer prize.
    RedeemFullRightsTransferBid,
    /// Redemption of the participation prize by any bidder with a claim.
    RedeemParticipationBid,
    /// Explicit start of the auction by the manager's authority.
    StartAuction,
    /// Draws one winning bid's funds into the accept-payment escrow.
    ClaimBid,
    /// Pays one creator's royalty share for one prize slot out of escrow.
    EmptyPaymentAccount(EmptyPaymentAccountArgs),
    /// Creates or updates a store.
    SetStore(SetStoreArgs),
    /// Adds or updates a whitelisted creator of a store.
    SetWhitelistedCreator(SetWhitelistedCreatorArgs),
    /// One-time validation of the participation prize's box.
    ValidateParticipation,
    /// One-time conversion of the single-use authorization token into the
    /// participation printing pool.
    PopulateParticipationPrintingAccount,
    /// Auctioneer fallback: redeems a prize slot whose rank has no winner.
    RedeemUnusedWinningConfigItemsAsAuctioneer(RedeemUnusedWinningConfigItemsAsAuctioneerArgs),
    /// Moves an `Initialized` manager whose validation cannot complete to
    /// the terminal `Decommissioned` status.
    DecommissionAuctionManager,
}

} // verus!
