use metaplex::config::{AuctionManagerSettings, ParticipationConfig, PrizeKind, PrizeSlot, WinningConfig};
use metaplex::external::{AuctionView, BoxInspection, Creator};
use metaplex::instruction::EmptyPaymentAccountArgs;
use metaplex::manager::AuctionManager;
use metaplex::state::{AuctionManagerStatus, MetaplexError};

const AUTHORITY: u64 = 10;
const CREATOR_A: u64 = 100;
const CREATOR_B: u64 = 101;

fn args(t: Option<u8>, i: Option<u8>, c: Option<u8>) -> EmptyPaymentAccountArgs {
    EmptyPaymentAccountArgs {
        winning_config_index: t,
        winning_config_item_index: i,
        creator_index: c,
    }
}

fn two_creators() -> Vec<Creator> {
    vec![
        Creator { key: CREATOR_A, share_bps: 7000 },
        Creator { key: CREATOR_B, share_bps: 3000 },
    ]
}

fn auction(winners: Vec<u64>, bids: Vec<u64>) -> AuctionView {
    AuctionView { concluded: true, claimants: winners.clone(), winners, winning_bids: bids }
}

/// A finished single-slot auction with a winning bid of one hundred units,
/// the bid already drawn into escrow.
fn settled_auction(creators: Vec<Creator>) -> (AuctionManager, AuctionView) {
    let settings = AuctionManagerSettings {
        winning_configs: vec![WinningConfig {
            items: vec![PrizeSlot { box_index: 0, amount: 1, kind: PrizeKind::TokenTransfer }],
        }],
        participation_config: None,
    };
    let mut m = AuctionManager::new(AUTHORITY, 11, 12, 13, 14, settings).unwrap();
    let insp = BoxInspection {
        metadata: 500,
        metadata_authority: 501,
        creators: creators.clone(),
        token_count: 10,
        is_master_edition: false,
        is_printing_mint: false,
    };
    let proof_creator = if creators.is_empty() { 0 } else { creators[0].key };
    if creators.is_empty() {
        // a creatorless asset still validates against some whitelisted
        // creator of the store; model that with an inspection that carries
        // one entry while the payout sees none
        let insp2 = BoxInspection { creators: vec![Creator { key: CREATOR_A, share_bps: 10000 }], ..insp };
        m.validate_safety_deposit_box(0, &insp2, CREATOR_A, true).unwrap();
    } else {
        m.validate_safety_deposit_box(0, &insp, proof_creator, true).unwrap();
    }
    m.start_auction(AUTHORITY).unwrap();
    let a = auction(vec![201], vec![100]);
    m.redeem_bid(&a, 201).unwrap();
    assert!(matches!(m.status, AuctionManagerStatus::Finished));
    assert_eq!(m.claim_bid(&a, 201), Ok(100));
    assert_eq!(m.escrow, 100);
    (m, a)
}

#[test]
fn royalty_shares_of_7000_and_3000_pay_70_and_30_then_nothing() {
    let creators = two_creators();
    let (mut m, a) = settled_auction(creators.clone());
    assert_eq!(
        m.empty_payment_account(&a, args(Some(0), Some(0), Some(0)), &creators, CREATOR_A),
        Ok(70)
    );
    assert_eq!(m.escrow, 30);
    assert_eq!(
        m.empty_payment_account(&a, args(Some(0), Some(0), Some(1)), &creators, CREATOR_B),
        Ok(30)
    );
    assert_eq!(m.escrow, 0);
    // a third call for either index succeeds and pays zero
    assert_eq!(
        m.empty_payment_account(&a, args(Some(0), Some(0), Some(0)), &creators, CREATOR_A),
        Ok(0)
    );
    assert_eq!(
        m.empty_payment_account(&a, args(Some(0), Some(0), Some(1)), &creators, CREATOR_B),
        Ok(0)
    );
    assert_eq!(m.escrow, 0);
}

#[test]
fn payout_without_escrow_reports_the_accounting_defect() {
    let creators = two_creators();
    let settings = AuctionManagerSettings {
        winning_configs: vec![WinningConfig {
            items: vec![PrizeSlot { box_index: 0, amount: 1, kind: PrizeKind::TokenTransfer }],
        }],
        participation_config: None,
    };
    let mut m = AuctionManager::new(AUTHORITY, 11, 12, 13, 14, settings).unwrap();
    let insp = BoxInspection {
        metadata: 500,
        metadata_authority: 501,
        creators: creators.clone(),
        token_count: 10,
        is_master_edition: false,
        is_printing_mint: false,
    };
    m.validate_safety_deposit_box(0, &insp, CREATOR_A, true).unwrap();
    m.start_auction(AUTHORITY).unwrap();
    let a = auction(vec![201], vec![100]);
    m.redeem_bid(&a, 201).unwrap();
    // the winning bid was never claimed into escrow
    assert_eq!(
        m.empty_payment_account(&a, args(Some(0), Some(0), Some(0)), &creators, CREATOR_A),
        Err(MetaplexError::InsufficientEscrow)
    );
}

#[test]
fn payout_rejects_wrong_recipients_and_positions() {
    let creators = two_creators();
    let (mut m, a) = settled_auction(creators.clone());
    assert_eq!(
        m.empty_payment_account(&a, args(Some(0), Some(0), Some(5)), &creators, CREATOR_A),
        Err(MetaplexError::InvalidCreatorIndex)
    );
    // destination not owned by the named creator
    assert_eq!(
        m.empty_payment_account(&a, args(Some(0), Some(0), Some(0)), &creators, CREATOR_B),
        Err(MetaplexError::CreatorMismatch)
    );
    // position outside the configuration
    assert_eq!(
        m.empty_payment_account(&a, args(Some(3), Some(0), Some(0)), &creators, CREATOR_A),
        Err(MetaplexError::InvalidWinningConfig)
    );
    // half-specified position
    assert_eq!(
        m.empty_payment_account(&a, args(Some(0), None, Some(0)), &creators, CREATOR_A),
        Err(MetaplexError::InvalidWinningConfig)
    );
    // no creator list given, but the asset has one
    assert_eq!(
        m.empty_payment_account(&a, args(Some(0), Some(0), None), &creators, CREATOR_A),
        Err(MetaplexError::InvalidCreatorIndex)
    );
    // participation payout on an auction without a participation prize
    assert_eq!(
        m.empty_payment_account(&a, args(None, None, Some(0)), &creators, CREATOR_A),
        Err(MetaplexError::ParticipationNotConfigured)
    );
}

#[test]
fn payout_waits_for_a_disbursable_status() {
    let creators = two_creators();
    let settings = AuctionManagerSettings {
        winning_configs: vec![WinningConfig {
            items: vec![PrizeSlot { box_index: 0, amount: 1, kind: PrizeKind::TokenTransfer }],
        }],
        participation_config: None,
    };
    let mut m = AuctionManager::new(AUTHORITY, 11, 12, 13, 14, settings).unwrap();
    let a = auction(vec![201], vec![100]);
    assert_eq!(
        m.empty_payment_account(&a, args(Some(0), Some(0), Some(0)), &creators, CREATOR_A),
        Err(MetaplexError::StateNotDisbursingOrFinished)
    );
}

#[test]
fn creatorless_assets_pay_the_auctioneer_in_full() {
    let (mut m, a) = settled_auction(vec![]);
    let no_creators: Vec<Creator> = vec![];
    // only the authority's own account may receive it
    assert_eq!(
        m.empty_payment_account(&a, args(Some(0), Some(0), None), &no_creators, 77),
        Err(MetaplexError::WrongAuthority)
    );
    assert_eq!(
        m.empty_payment_account(&a, args(Some(0), Some(0), None), &no_creators, AUTHORITY),
        Ok(100)
    );
    assert_eq!(m.escrow, 0);
    assert_eq!(
        m.empty_payment_account(&a, args(Some(0), Some(0), None), &no_creators, AUTHORITY),
        Ok(0)
    );
}

#[test]
fn participation_payments_are_attributable_and_disbursable() {
    let settings = AuctionManagerSettings {
        winning_configs: vec![
            WinningConfig {
                items: vec![PrizeSlot { box_index: 0, amount: 1, kind: PrizeKind::TokenTransfer }],
            },
            // a never-redeemed limited edition keeps the manager disbursing
            WinningConfig {
                items: vec![PrizeSlot { box_index: 7, amount: 1, kind: PrizeKind::LimitedEditionPrint }],
            },
        ],
        participation_config: Some(ParticipationConfig { box_index: 9, fixed_price: Some(10) }),
    };
    let mut m = AuctionManager::new(AUTHORITY, 11, 12, 13, 14, settings).unwrap();
    let creators = two_creators();
    let insp = BoxInspection {
        metadata: 500,
        metadata_authority: 501,
        creators: creators.clone(),
        token_count: 10,
        is_master_edition: false,
        is_printing_mint: false,
    };
    m.validate_safety_deposit_box(0, &insp, CREATOR_A, true).unwrap();
    let le_insp = BoxInspection {
        metadata: 510,
        metadata_authority: 511,
        creators: creators.clone(),
        token_count: 0,
        is_master_edition: false,
        is_printing_mint: true,
    };
    m.validate_safety_deposit_box(7, &le_insp, CREATOR_A, true).unwrap();
    let open_edition = BoxInspection {
        metadata: 700,
        metadata_authority: 701,
        creators: creators.clone(),
        token_count: 1,
        is_master_edition: true,
        is_printing_mint: false,
    };
    m.validate_participation(AUTHORITY, &open_edition, CREATOR_A, true).unwrap();
    m.populate_participation_printing_account(1, true, 5).unwrap();
    m.start_auction(AUTHORITY).unwrap();
    let a = AuctionView {
        concluded: true,
        winners: vec![201],
        winning_bids: vec![100],
        claimants: vec![201, 202, 203],
    };
    // two claimants pay ten units each into escrow
    assert_eq!(m.redeem_participation_bid(&a, 202, 10), Ok(10));
    assert_eq!(m.redeem_participation_bid(&a, 203, 10), Ok(10));
    assert_eq!(m.participation_total, 20);
    assert_eq!(m.escrow, 20);
    // the participation slot disburses 70% and 30% of the twenty units
    assert_eq!(
        m.empty_payment_account(&a, args(None, None, Some(0)), &creators, CREATOR_A),
        Ok(14)
    );
    assert_eq!(
        m.empty_payment_account(&a, args(None, None, Some(1)), &creators, CREATOR_B),
        Ok(6)
    );
    assert_eq!(m.escrow, 0);
    assert_eq!(
        m.empty_payment_account(&a, args(None, None, Some(0)), &creators, CREATOR_A),
        Ok(0)
    );
}

#[test]
fn claim_bid_draws_each_winning_bid_once() {
    let creators = two_creators();
    let (mut m, a) = settled_auction(creators);
    // settled_auction already claimed bidder 201's funds
    assert_eq!(m.claim_bid(&a, 201), Err(MetaplexError::AlreadyRedeemed));
    assert_eq!(m.claim_bid(&a, 999), Err(MetaplexError::NotWinner));
    let unconcluded = AuctionView {
        concluded: false,
        winners: vec![201],
        winning_bids: vec![100],
        claimants: vec![201],
    };
    assert_eq!(m.claim_bid(&unconcluded, 201), Err(MetaplexError::AuctionNotEnded));
}
