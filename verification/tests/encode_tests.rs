use metaplex::config::{AuctionManagerSettings, ParticipationConfig, PrizeKind, PrizeSlot, WinningConfig};
use metaplex::encode::instruction_data;
use metaplex::instruction::{
    EmptyPaymentAccountArgs, MetaplexInstruction, ProxyCallAddress,
    RedeemUnusedWinningConfigItemsAsAuctioneerArgs, SetStoreArgs, SetWhitelistedCreatorArgs,
};

fn small_settings() -> AuctionManagerSettings {
    AuctionManagerSettings {
        winning_configs: vec![WinningConfig {
            items: vec![PrizeSlot { box_index: 2, amount: 5, kind: PrizeKind::TokenTransfer }],
        }],
        participation_config: Some(ParticipationConfig { box_index: 9, fixed_price: Some(3) }),
    }
}

#[test]
fn bare_instructions_encode_to_their_tag_byte() {
    assert_eq!(instruction_data(&MetaplexInstruction::ValidateSafetyDepositBox), vec![1]);
    assert_eq!(instruction_data(&MetaplexInstruction::RedeemBid), vec![2]);
    assert_eq!(instruction_data(&MetaplexInstruction::RedeemFullRightsTransferBid), vec![3]);
    assert_eq!(instruction_data(&MetaplexInstruction::RedeemParticipationBid), vec![4]);
    assert_eq!(instruction_data(&MetaplexInstruction::StartAuction), vec![5]);
    assert_eq!(instruction_data(&MetaplexInstruction::ClaimBid), vec![6]);
    assert_eq!(instruction_data(&MetaplexInstruction::ValidateParticipation), vec![10]);
    assert_eq!(
        instruction_data(&MetaplexInstruction::PopulateParticipationPrintingAccount),
        vec![11]
    );
    assert_eq!(instruction_data(&MetaplexInstruction::DecommissionAuctionManager), vec![13]);
}

#[test]
fn argument_carrying_instructions_append_their_fields() {
    assert_eq!(
        instruction_data(&MetaplexInstruction::SetStore(SetStoreArgs { public: true })),
        vec![8, 1]
    );
    assert_eq!(
        instruction_data(&MetaplexInstruction::SetWhitelistedCreator(SetWhitelistedCreatorArgs {
            activated: false,
        })),
        vec![9, 0]
    );
    assert_eq!(
        instruction_data(&MetaplexInstruction::EmptyPaymentAccount(EmptyPaymentAccountArgs {
            winning_config_index: Some(1),
            winning_config_item_index: None,
            creator_index: Some(2),
        })),
        vec![7, 1, 1, 0, 1, 2]
    );
    assert_eq!(
        instruction_data(&MetaplexInstruction::RedeemUnusedWinningConfigItemsAsAuctioneer(
            RedeemUnusedWinningConfigItemsAsAuctioneerArgs {
                winning_config_item_index: 3,
                proxy_call: ProxyCallAddress::RedeemFullRightsTransferBid,
            },
        )),
        vec![12, 3, 1]
    );
}

#[test]
fn init_auction_manager_encodes_the_whole_configuration() {
    let bytes = instruction_data(&MetaplexInstruction::InitAuctionManager(small_settings()));
    let expected = vec![
        0, // tag
        1, 0, 0, 0, // one tier
        1, 0, 0, 0, // one slot in it
        2, // its box
        5, 0, 0, 0, 0, 0, 0, 0, // its amount
        0, // token transfer
        1, // participation present
        9, // its box
        1, // fixed price present
        3, 0, 0, 0, 0, 0, 0, 0, // the price
    ];
    assert_eq!(bytes, expected);
}

#[test]
fn configuration_encoding_matches_the_borsh_wire_format() {
    // the same shape, spelled with types borsh serializes out of the box:
    // a slot as (box, amount, kind tag), the participation part as
    // (box, fixed price)
    let mirror: (Vec<Vec<(u8, u64, u8)>>, Option<(u8, Option<u64>)>) =
        (vec![vec![(2u8, 5u64, 0u8)]], Some((9u8, Some(3u64))));
    let borsh_bytes = borsh::to_vec(&mirror).unwrap();
    let bytes = instruction_data(&MetaplexInstruction::InitAuctionManager(small_settings()));
    assert_eq!(&bytes[1..], &borsh_bytes[..]);
}
