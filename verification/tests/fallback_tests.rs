use metaplex::config::{AuctionManagerSettings, PrizeKind, PrizeSlot, WinningConfig};
use metaplex::external::{AuctionView, BoxInspection, Creator};
use metaplex::instruction::{ProxyCallAddress, RedeemUnusedWinningConfigItemsAsAuctioneerArgs};
use metaplex::manager::AuctionManager;
use metaplex::redemption::PrizeDelivery;
use metaplex::state::{AuctionManagerStatus, MetaplexError};

const AUTHORITY: u64 = 10;
const CREATOR: u64 = 100;

fn slot(box_index: u8, kind: PrizeKind) -> PrizeSlot {
    PrizeSlot { box_index, amount: 1, kind }
}

fn fallback_args(item: u8, proxy: ProxyCallAddress) -> RedeemUnusedWinningConfigItemsAsAuctioneerArgs {
    RedeemUnusedWinningConfigItemsAsAuctioneerArgs {
        winning_config_item_index: item,
        proxy_call: proxy,
    }
}

fn inspection(metadata: u64, kind: PrizeKind) -> BoxInspection {
    BoxInspection {
        metadata,
        metadata_authority: metadata + 1,
        creators: vec![Creator { key: CREATOR, share_bps: 10000 }],
        token_count: 10,
        is_master_edition: matches!(kind, PrizeKind::FullRightsTransfer),
        is_printing_mint: matches!(kind, PrizeKind::LimitedEditionPrint),
    }
}

/// A decommissioned manager: tier 0 holds a validated master box, tier 1 an
/// unvalidated token box.
fn decommissioned() -> AuctionManager {
    let settings = AuctionManagerSettings {
        winning_configs: vec![
            WinningConfig { items: vec![slot(2, PrizeKind::FullRightsTransfer)] },
            WinningConfig { items: vec![slot(3, PrizeKind::TokenTransfer)] },
        ],
        participation_config: None,
    };
    let mut m = AuctionManager::new(AUTHORITY, 11, 12, 13, 14, settings).unwrap();
    m.validate_safety_deposit_box(2, &inspection(600, PrizeKind::FullRightsTransfer), CREATOR, true)
        .unwrap();
    m.decommission(AUTHORITY).unwrap();
    m
}

fn no_winner_auction() -> AuctionView {
    AuctionView { concluded: true, winners: vec![], winning_bids: vec![], claimants: vec![] }
}

#[test]
fn fallback_reclaims_an_unclaimed_slot_exactly_once() {
    let mut m = decommissioned();
    let a = no_winner_auction();
    let receipt = m
        .redeem_unused_winning_config_items_as_auctioneer(
            &a,
            AUTHORITY,
            0,
            fallback_args(0, ProxyCallAddress::RedeemFullRightsTransferBid),
            999,
        )
        .unwrap();
    match receipt.deliveries[0] {
        PrizeDelivery::FullRights { box_index, handover, .. } => {
            assert_eq!(box_index, 2);
            // the box was validated, so the authority is handed over
            let handover = handover.unwrap();
            assert_eq!(handover.metadata, 600);
            assert_eq!(handover.to, 999);
        },
        _ => panic!("expected a full-rights delivery"),
    }
    // decommissioned absorbs: the status never changes again
    assert!(matches!(m.status, AuctionManagerStatus::Decommissioned));
    // the slot can be reclaimed at most once
    assert_eq!(
        m.redeem_unused_winning_config_items_as_auctioneer(
            &a,
            AUTHORITY,
            0,
            fallback_args(0, ProxyCallAddress::RedeemFullRightsTransferBid),
            999,
        )
        .err(),
        Some(MetaplexError::AlreadyRedeemed)
    );
}

#[test]
fn fallback_skips_the_handover_of_a_never_validated_box() {
    let mut m = decommissioned();
    let a = no_winner_auction();
    let receipt = m
        .redeem_unused_winning_config_items_as_auctioneer(
            &a,
            AUTHORITY,
            1,
            fallback_args(0, ProxyCallAddress::RedeemBid),
            999,
        )
        .unwrap();
    assert!(matches!(
        receipt.deliveries[..],
        [PrizeDelivery::Tokens { box_index: 3, amount: 1 }]
    ));
    assert!(receipt.restorations.is_empty());
}

#[test]
fn fallback_rejects_slots_with_a_winning_claim() {
    let mut m = decommissioned();
    let a = AuctionView {
        concluded: true,
        winners: vec![201],
        winning_bids: vec![50],
        claimants: vec![201],
    };
    assert_eq!(
        m.redeem_unused_winning_config_items_as_auctioneer(
            &a,
            AUTHORITY,
            0,
            fallback_args(0, ProxyCallAddress::RedeemFullRightsTransferBid),
            999,
        )
        .err(),
        Some(MetaplexError::SlotHasWinner)
    );
}

#[test]
fn fallback_requires_the_authority_and_a_disbursable_status() {
    let mut m = decommissioned();
    let a = no_winner_auction();
    assert_eq!(
        m.redeem_unused_winning_config_items_as_auctioneer(
            &a,
            77,
            0,
            fallback_args(0, ProxyCallAddress::RedeemFullRightsTransferBid),
            999,
        )
        .err(),
        Some(MetaplexError::WrongAuthority)
    );
    // a running manager is not disbursable yet
    let settings = AuctionManagerSettings {
        winning_configs: vec![WinningConfig { items: vec![slot(0, PrizeKind::TokenTransfer)] }],
        participation_config: None,
    };
    let mut running = AuctionManager::new(AUTHORITY, 11, 12, 13, 14, settings).unwrap();
    running
        .validate_safety_deposit_box(0, &inspection(500, PrizeKind::TokenTransfer), CREATOR, true)
        .unwrap();
    running.start_auction(AUTHORITY).unwrap();
    assert_eq!(
        running
            .redeem_unused_winning_config_items_as_auctioneer(
                &a,
                AUTHORITY,
                0,
                fallback_args(0, ProxyCallAddress::RedeemBid),
                999,
            )
            .err(),
        Some(MetaplexError::InvalidState)
    );
}

#[test]
fn fallback_checks_the_proxied_path_against_the_slot_kind() {
    let mut m = decommissioned();
    let a = no_winner_auction();
    // tier 0 is a full-rights slot; the standard proxy does not fit it
    assert_eq!(
        m.redeem_unused_winning_config_items_as_auctioneer(
            &a,
            AUTHORITY,
            0,
            fallback_args(0, ProxyCallAddress::RedeemBid),
            999,
        )
        .err(),
        Some(MetaplexError::PrizeKindMismatch)
    );
    // and a position outside the configuration is rejected
    assert_eq!(
        m.redeem_unused_winning_config_items_as_auctioneer(
            &a,
            AUTHORITY,
            5,
            fallback_args(0, ProxyCallAddress::RedeemBid),
            999,
        )
        .err(),
        Some(MetaplexError::InvalidWinningConfig)
    );
}

#[test]
fn fallback_reports_an_unvalidated_limited_edition() {
    // decommissioned before the limited-edition box was validated: its
    // printing authority was never reserved, so the mint cannot happen
    let settings = AuctionManagerSettings {
        winning_configs: vec![WinningConfig { items: vec![slot(7, PrizeKind::LimitedEditionPrint)] }],
        participation_config: None,
    };
    let mut m = AuctionManager::new(AUTHORITY, 11, 12, 13, 14, settings).unwrap();
    m.decommission(AUTHORITY).unwrap();
    let a = no_winner_auction();
    assert_eq!(
        m.redeem_unused_winning_config_items_as_auctioneer(
            &a,
            AUTHORITY,
            0,
            fallback_args(0, ProxyCallAddress::RedeemBid),
            999,
        )
        .err(),
        Some(MetaplexError::MintAuthorityMismatch)
    );
}
