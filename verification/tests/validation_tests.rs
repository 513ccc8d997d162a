use metaplex::config::{AuctionManagerSettings, ParticipationConfig, PrizeKind, PrizeSlot, WinningConfig};
use metaplex::external::{BoxInspection, Creator};
use metaplex::manager::AuctionManager;
use metaplex::state::{AuctionManagerStatus, MetaplexError};

const AUTHORITY: u64 = 10;
const VAULT: u64 = 11;
const AUCTION: u64 = 12;
const STORE: u64 = 13;
const ACCEPT_PAYMENT: u64 = 14;
const CREATOR: u64 = 100;

fn slot(box_index: u8, amount: u64, kind: PrizeKind) -> PrizeSlot {
    PrizeSlot { box_index, amount, kind }
}

fn single_slot_settings(s: PrizeSlot) -> AuctionManagerSettings {
    AuctionManagerSettings {
        winning_configs: vec![WinningConfig { items: vec![s] }],
        participation_config: None,
    }
}

fn manager(settings: AuctionManagerSettings) -> AuctionManager {
    AuctionManager::new(AUTHORITY, VAULT, AUCTION, STORE, ACCEPT_PAYMENT, settings).unwrap()
}

fn token_inspection(metadata: u64, token_count: u64) -> BoxInspection {
    BoxInspection {
        metadata,
        metadata_authority: metadata + 1,
        creators: vec![Creator { key: CREATOR, share_bps: 10000 }],
        token_count,
        is_master_edition: false,
        is_printing_mint: false,
    }
}

fn master_inspection(metadata: u64) -> BoxInspection {
    BoxInspection {
        metadata,
        metadata_authority: metadata + 1,
        creators: vec![Creator { key: CREATOR, share_bps: 10000 }],
        token_count: 1,
        is_master_edition: true,
        is_printing_mint: false,
    }
}

fn printing_inspection(metadata: u64) -> BoxInspection {
    BoxInspection {
        metadata,
        metadata_authority: metadata + 1,
        creators: vec![Creator { key: CREATOR, share_bps: 10000 }],
        token_count: 0,
        is_master_edition: false,
        is_printing_mint: true,
    }
}

#[test]
fn validation_succeeds_once_then_already_validated() {
    let mut m = manager(single_slot_settings(slot(0, 1, PrizeKind::TokenTransfer)));
    let insp = token_inspection(500, 5);
    assert_eq!(m.validate_safety_deposit_box(0, &insp, CREATOR, true), Ok(()));
    // a second attempt always fails with the already-validated error
    assert_eq!(
        m.validate_safety_deposit_box(0, &insp, CREATOR, true),
        Err(MetaplexError::AlreadyValidated)
    );
    // even with a different inspection or creator proof
    assert_eq!(
        m.validate_safety_deposit_box(0, &master_inspection(501), 77, false),
        Err(MetaplexError::AlreadyValidated)
    );
}

#[test]
fn validation_moves_manager_to_validated_when_all_boxes_have_tickets() {
    let settings = AuctionManagerSettings {
        winning_configs: vec![
            WinningConfig { items: vec![slot(0, 1, PrizeKind::TokenTransfer)] },
            WinningConfig { items: vec![slot(1, 2, PrizeKind::TokenTransfer)] },
        ],
        participation_config: None,
    };
    let mut m = manager(settings);
    assert!(matches!(m.status, AuctionManagerStatus::Initialized));
    assert_eq!(m.validate_safety_deposit_box(0, &token_inspection(500, 5), CREATOR, true), Ok(()));
    assert!(matches!(m.status, AuctionManagerStatus::Initialized));
    assert_eq!(m.validate_safety_deposit_box(1, &token_inspection(501, 5), CREATOR, true), Ok(()));
    assert!(matches!(m.status, AuctionManagerStatus::Validated));
}

#[test]
fn validation_rejects_unknown_creator() {
    let mut m = manager(single_slot_settings(slot(0, 1, PrizeKind::TokenTransfer)));
    let insp = token_inspection(500, 5);
    // creator proof not on the asset's creator list
    assert_eq!(
        m.validate_safety_deposit_box(0, &insp, 999, true),
        Err(MetaplexError::CreatorMismatch)
    );
    // creator on the list, but not whitelisted for the store
    assert_eq!(
        m.validate_safety_deposit_box(0, &insp, CREATOR, false),
        Err(MetaplexError::CreatorMismatch)
    );
}

#[test]
fn validation_rejects_contents_that_disagree_with_the_declared_kind() {
    // declared limited edition, but the box holds no printing mint
    let mut m = manager(single_slot_settings(slot(0, 1, PrizeKind::LimitedEditionPrint)));
    assert_eq!(
        m.validate_safety_deposit_box(0, &token_inspection(500, 5), CREATOR, true),
        Err(MetaplexError::PrizeKindMismatch)
    );
    // declared token transfer of 3, but the store holds fewer
    let mut m = manager(single_slot_settings(slot(0, 3, PrizeKind::TokenTransfer)));
    assert_eq!(
        m.validate_safety_deposit_box(0, &token_inspection(500, 2), CREATOR, true),
        Err(MetaplexError::PrizeKindMismatch)
    );
    // declared full rights transfer, but no master asset in the box
    let mut m = manager(single_slot_settings(slot(0, 1, PrizeKind::FullRightsTransfer)));
    assert_eq!(
        m.validate_safety_deposit_box(0, &token_inspection(500, 5), CREATOR, true),
        Err(MetaplexError::PrizeKindMismatch)
    );
}

#[test]
fn validation_rejects_a_box_outside_the_configuration() {
    let mut m = manager(single_slot_settings(slot(0, 1, PrizeKind::TokenTransfer)));
    assert_eq!(
        m.validate_safety_deposit_box(9, &token_inspection(500, 5), CREATOR, true),
        Err(MetaplexError::InvalidWinningConfig)
    );
}

#[test]
fn validation_reserves_authority_for_limited_editions() {
    let mut m = manager(single_slot_settings(slot(0, 1, PrizeKind::LimitedEditionPrint)));
    assert_eq!(m.authorities_outstanding, 0);
    assert_eq!(m.validate_safety_deposit_box(0, &printing_inspection(500), CREATOR, true), Ok(()));
    assert_eq!(m.authorities_outstanding, 1);
}

#[test]
fn participation_validation_succeeds_once() {
    let settings = AuctionManagerSettings {
        winning_configs: vec![WinningConfig { items: vec![slot(0, 1, PrizeKind::TokenTransfer)] }],
        participation_config: Some(ParticipationConfig { box_index: 9, fixed_price: Some(1) }),
    };
    let mut m = manager(settings);
    let open_edition = master_inspection(700);
    assert_eq!(m.validate_participation(AUTHORITY, &open_edition, CREATOR, true), Ok(()));
    assert_eq!(
        m.validate_participation(AUTHORITY, &open_edition, CREATOR, true),
        Err(MetaplexError::AlreadyValidated)
    );
    // the ranked box is still pending, so the manager is not yet validated
    assert!(matches!(m.status, AuctionManagerStatus::Initialized));
    assert_eq!(m.validate_safety_deposit_box(0, &token_inspection(500, 5), CREATOR, true), Ok(()));
    assert!(matches!(m.status, AuctionManagerStatus::Validated));
}

#[test]
fn participation_validation_needs_configuration_authority_and_master_edition() {
    let mut m = manager(single_slot_settings(slot(0, 1, PrizeKind::TokenTransfer)));
    assert_eq!(
        m.validate_participation(AUTHORITY, &master_inspection(700), CREATOR, true),
        Err(MetaplexError::ParticipationNotConfigured)
    );
    let settings = AuctionManagerSettings {
        winning_configs: vec![WinningConfig { items: vec![slot(0, 1, PrizeKind::TokenTransfer)] }],
        participation_config: Some(ParticipationConfig { box_index: 9, fixed_price: None }),
    };
    let mut m = manager(settings.clone());
    assert_eq!(
        m.validate_participation(77, &master_inspection(700), CREATOR, true),
        Err(MetaplexError::WrongAuthority)
    );
    let mut m = manager(settings);
    assert_eq!(
        m.validate_participation(AUTHORITY, &token_inspection(700, 1), CREATOR, true),
        Err(MetaplexError::PrizeKindMismatch)
    );
}

#[test]
fn populate_printing_pool_runs_at_most_once() {
    let settings = AuctionManagerSettings {
        winning_configs: vec![],
        participation_config: Some(ParticipationConfig { box_index: 9, fixed_price: Some(1) }),
    };
    let mut m = manager(settings);
    assert_eq!(m.populate_participation_printing_account(1, true, 100), Ok(()));
    assert_eq!(m.printing_pool, 100);
    assert!(m.printing_pool_populated);
    // pool already holds tokens
    assert_eq!(
        m.populate_participation_printing_account(1, true, 100),
        Err(MetaplexError::AlreadyPopulated)
    );
}

#[test]
fn populate_printing_pool_rejects_bad_authorization() {
    let settings = AuctionManagerSettings {
        winning_configs: vec![],
        participation_config: Some(ParticipationConfig { box_index: 9, fixed_price: Some(1) }),
    };
    let mut m = manager(settings.clone());
    // the one-time-use mint's supply must be exactly one
    assert_eq!(
        m.populate_participation_printing_account(0, true, 100),
        Err(MetaplexError::AlreadyPopulated)
    );
    // the manager must hold the expected temporary mint authority
    assert_eq!(
        m.populate_participation_printing_account(1, false, 100),
        Err(MetaplexError::MintAuthorityMismatch)
    );
    let mut m = manager(single_slot_settings(slot(0, 1, PrizeKind::TokenTransfer)));
    assert_eq!(
        m.populate_participation_printing_account(1, true, 100),
        Err(MetaplexError::ParticipationNotConfigured)
    );
}

#[test]
fn new_manager_rejects_a_malformed_configuration() {
    // one tier naming the same box twice
    let settings = AuctionManagerSettings {
        winning_configs: vec![WinningConfig {
            items: vec![slot(0, 1, PrizeKind::TokenTransfer), slot(0, 1, PrizeKind::TokenTransfer)],
        }],
        participation_config: None,
    };
    assert!(matches!(
        AuctionManager::new(AUTHORITY, VAULT, AUCTION, STORE, ACCEPT_PAYMENT, settings),
        Err(MetaplexError::InvalidWinningConfig)
    ));
}

#[test]
fn start_auction_requires_the_authority_and_a_validated_manager() {
    let mut m = manager(single_slot_settings(slot(0, 1, PrizeKind::TokenTransfer)));
    assert_eq!(m.start_auction(77), Err(MetaplexError::WrongAuthority));
    // not yet validated
    assert_eq!(m.start_auction(AUTHORITY), Err(MetaplexError::InvalidState));
    assert_eq!(m.validate_safety_deposit_box(0, &token_inspection(500, 5), CREATOR, true), Ok(()));
    assert_eq!(m.start_auction(AUTHORITY), Ok(()));
    assert!(matches!(m.status, AuctionManagerStatus::Running));
    // starting twice is rejected and changes nothing
    assert_eq!(m.start_auction(AUTHORITY), Err(MetaplexError::InvalidState));
    assert!(matches!(m.status, AuctionManagerStatus::Running));
}

#[test]
fn decommission_is_an_initialized_only_escape_and_absorbs() {
    let mut m = manager(single_slot_settings(slot(0, 1, PrizeKind::TokenTransfer)));
    assert_eq!(m.decommission(77), Err(MetaplexError::WrongAuthority));
    assert_eq!(m.decommission(AUTHORITY), Ok(()));
    assert!(matches!(m.status, AuctionManagerStatus::Decommissioned));
    // terminal: no transition out, and prize-affecting calls are rejected
    assert_eq!(m.decommission(AUTHORITY), Err(MetaplexError::InvalidState));
    assert_eq!(
        m.validate_safety_deposit_box(0, &token_inspection(500, 5), CREATOR, true),
        Err(MetaplexError::InvalidState)
    );
    assert_eq!(m.start_auction(AUTHORITY), Err(MetaplexError::InvalidState));
    assert!(matches!(m.status, AuctionManagerStatus::Decommissioned));
}
