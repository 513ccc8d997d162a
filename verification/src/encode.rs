//! The byte encoding of an instruction's payload: a one-byte variant tag
//! followed by the variant's fields — integers little-endian, a list as a
//! four-byte length and its elements, an optional value as a presence byte
//! and the value. Every builder's `data` is produced here.

use vstd::prelude::*;
use crate::config::{AuctionManagerSettings, ParticipationConfig, PrizeKind, PrizeSlot};
use crate::instruction::{MetaplexInstruction, ProxyCallAddress};

verus! {

/// The four bytes of `n`, least significant first.
pub open spec fn u32_le_bytes(n: u32) -> Seq<u8> {
    seq![
        (n % 0x100) as u8,
        ((n / 0x100) % 0x100) as u8,
        ((n / 0x10000) % 0x100) as u8,
        ((n / 0x1000000) % 0x100) as u8,
    ]
}

/// The eight bytes of `n`, least significant first.
pub open spec fn u64_le_bytes(n: u64) -> Seq<u8> {
    seq![
        (n % 0x100) as u8,
        ((n / 0x100) % 0x100) as u8,
        ((n / 0x10000) % 0x100) as u8,
        ((n / 0x1000000) % 0x100) as u8,
        ((n / 0x100000000) % 0x100) as u8,
        ((n / 0x10000000000) % 0x100) as u8,
        ((n / 0x1000000000000) % 0x100) as u8,
        ((n / 0x100000000000000) % 0x100) as u8,
    ]
}

pub open spec fn bool_byte(b: bool) -> u8 {
    if b {
        1
    } else {
        0
    }
}

/// The wire tag of a prize kind, in declaration order.
pub open spec fn kind_byte(k: PrizeKind) -> u8 {
    match k {
        PrizeKind::TokenTransfer => 0,
        PrizeKind::FullRightsTransfer => 1,
        PrizeKind::LimitedEditionPrint => 2,
    }
}

/// One prize slot: box index, amount, kind.
pub open spec fn slot_bytes(s: PrizeSlot) -> Seq<u8> {
    seq![s.box_index] + u64_le_bytes(s.amount) + seq![kind_byte(s.kind)]
}

/// The first `n` slots of a tier, in order.
pub open spec fn items_bytes(items: Seq<PrizeSlot>, n: int) -> Seq<u8>
    decreases n,
{
    if n <= 0 {
        Seq::empty()
    } else {
        items_bytes(items, n - 1) + slot_bytes(items[n - 1])
    }
}

/// One tier: its length, then its slots.
pub open spec fn tier_bytes(items: Seq<PrizeSlot>) -> Seq<u8> {
    u32_le_bytes(items.len() as u32) + items_bytes(items, items.len() as int)
}

/// The first `n` tiers, in order.
pub open spec fn tiers_bytes(tiers: Seq<Seq<PrizeSlot>>, n: int) -> Seq<u8>
    decreases n,
{
    if n <= 0 {
        Seq::empty()
    } else {
        tiers_bytes(tiers, n - 1) + tier_bytes(tiers[n - 1])
    }
}

/// An optional amount: a presence byte, then the amount.
pub open spec fn option_u64_bytes(o: Option<u64>) -> Seq<u8> {
    match o {
        None => seq![0u8],
        Some(v) => seq![1u8] + u64_le_bytes(v),
    }
}

/// An optional index: a presence byte, then the index.
pub open spec fn option_u8_bytes(o: Option<u8>) -> Seq<u8> {
    match o {
        None => seq![0u8],
        Some(v) => seq![1u8, v],
    }
}

/// The optional participation configuration.
pub open spec fn participation_bytes(o: Option<ParticipationConfig>) -> Seq<u8> {
    match o {
        None => seq![0u8],
        Some(pc) => seq![1u8, pc.box_index] + option_u64_bytes(pc.fixed_price),
    }
}

/// A full configuration: the tier list, then the participation part.
pub open spec fn settings_bytes(s: AuctionManagerSettings) -> Seq<u8> {
    u32_le_bytes(s.tiers().len() as u32) + tiers_bytes(s.tiers(), s.tiers().len() as int)
        + participation_bytes(s.participation_config)
}

pub open spec fn proxy_byte(p: ProxyCallAddress) -> u8 {
    match p {
        ProxyCallAddress::RedeemBid => 0,
        ProxyCallAddress::RedeemFullRightsTransferBid => 1,
    }
}

/// The payload of one instruction: its variant tag, in declaration order,
/// then its fields.
pub open spec fn instruction_bytes(ix: MetaplexInstruction) -> Seq<u8> {
    match ix {
        MetaplexInstruction::InitAuctionManager(s) => seq![0u8] + settings_bytes(s),
        MetaplexInstruction::ValidateSafetyDepositBox => seq![1u8],
        MetaplexInstruction::RedeemBid => seq![2u8],
        MetaplexInstruction::RedeemFullRightsTransferBid => seq![3u8],
        MetaplexInstruction::RedeemParticipationBid => seq![4u8],
        MetaplexInstruction::StartAuction => seq![5u8],
        MetaplexInstruction::ClaimBid => seq![6u8],
        MetaplexInstruction::EmptyPaymentAccount(a) => seq![7u8]
            + option_u8_bytes(a.winning_config_index)
            + option_u8_bytes(a.winning_config_item_index) + option_u8_bytes(a.creator_index),
        MetaplexInstruction::SetStore(a) => seq![8u8, bool_byte(a.public)],
        MetaplexInstruction::SetWhitelistedCreator(a) => seq![9u8, bool_byte(a.activated)],
        MetaplexInstruction::ValidateParticipation => seq![10u8],
        MetaplexInstruction::PopulateParticipationPrintingAccount => seq![11u8],
        MetaplexInstruction::RedeemUnusedWinningConfigItemsAsAuctioneer(a) => seq![
            12u8,
            a.winning_config_item_index,
            proxy_byte(a.proxy_call),
        ],
        MetaplexInstruction::DecommissionAuctionManager => seq![13u8],
    }
}

fn push_u32_le(out: &mut Vec<u8>, n: u32)
    ensures
        final(out)@ == old(out)@ + u32_le_bytes(n),
{
    out.push((n % 0x100) as u8);
    out.push(((n / 0x100) % 0x100) as u8);
    out.push(((n / 0x10000) % 0x100) as u8);
    out.push(((n / 0x1000000) % 0x100) as u8);
    proof {
        assert(out@ =~= old(out)@ + u32_le_bytes(n));
    }
}

fn push_u64_le(out: &mut Vec<u8>, n: u64)
    ensures
        final(out)@ == old(out)@ + u64_le_bytes(n),
{
    out.push((n % 0x100) as u8);
    out.push(((n / 0x100) % 0x100) as u8);
    out.push(((n / 0x10000) % 0x100) as u8);
    out.push(((n / 0x1000000) % 0x100) as u8);
    out.push(((n / 0x100000000) % 0x100) as u8);
    out.push(((n / 0x10000000000) % 0x100) as u8);
    out.push(((n / 0x1000000000000) % 0x100) as u8);
    out.push(((n / 0x100000000000000) % 0x100) as u8);
    proof {
        assert(out@ =~= old(out)@ + u64_le_bytes(n));
    }
}

fn push_slot(out: &mut Vec<u8>, s: PrizeSlot)
    ensures
        final(out)@ == old(out)@ + slot_bytes(s),
{
    out.push(s.box_index);
    push_u64_le(out, s.amount);
    let kind: u8 = match s.kind {
        PrizeKind::TokenTransfer => 0,
        PrizeKind::FullRightsTransfer => 1,
        PrizeKind::LimitedEditionPrint => 2,
    };
    out.push(kind);
    proof {
        assert(out@ =~= old(out)@ + slot_bytes(s));
    }
}

fn push_tier(out: &mut Vec<u8>, items: &Vec<PrizeSlot>)
    requires
        items@.len() <= 256,
    ensures
        final(out)@ == old(out)@ + tier_bytes(items@),
{
    push_u32_le(out, items.len() as u32);
    let mut i: usize = 0;
    while i < items.len()
        invariant
            i <= items@.len() <= 256,
            out@ == old(out)@ + u32_le_bytes(items@.len() as u32) + items_bytes(items@, i as int),
        decreases items@.len() - i,
    {
        push_slot(out, items[i]);
        proof {
            assert(out@ =~= old(out)@ + u32_le_bytes(items@.len() as u32)
                + items_bytes(items@, i + 1));
        }
        i += 1;
    }
    proof {
        assert(out@ =~= old(out)@ + tier_bytes(items@));
    }
}

fn push_option_u64(out: &mut Vec<u8>, o: Option<u64>)
    ensures
        final(out)@ == old(out)@ + option_u64_bytes(o),
{
    match o {
        None => {
            out.push(0);
        },
        Some(v) => {
            out.push(1);
            push_u64_le(out, v);
        },
    }
    proof {
        assert(out@ =~= old(out)@ + option_u64_bytes(o));
    }
}

fn push_option_u8(out: &mut Vec<u8>, o: Option<u8>)
    ensures
        final(out)@ == old(out)@ + option_u8_bytes(o),
{
    match o {
        None => {
            out.push(0);
        },
        Some(v) => {
            out.push(1);
            out.push(v);
        },
    }
    proof {
        assert(out@ =~= old(out)@ + option_u8_bytes(o));
    }
}

fn push_settings(out: &mut Vec<u8>, s: &AuctionManagerSettings)
    requires
        s.well_formed(),
    ensures
        final(out)@ == old(out)@ + settings_bytes(*s),
{
    push_u32_le(out, s.winning_configs.len() as u32);
    let mut t: usize = 0;
    while t < s.winning_configs.len()
        invariant
            s.well_formed(),
            t <= s.tiers().len(),
            out@ == old(out)@ + u32_le_bytes(s.tiers().len() as u32)
                + tiers_bytes(s.tiers(), t as int),
        decreases s.tiers().len() - t,
    {
        proof {
            assert(s.winning_configs@[t as int].items@ == s.tiers()[t as int]);
        }
        push_tier(out, &s.winning_configs[t].items);
        proof {
            assert(out@ =~= old(out)@ + u32_le_bytes(s.tiers().len() as u32)
                + tiers_bytes(s.tiers(), t + 1));
        }
        t += 1;
    }
    match &s.participation_config {
        None => {
            out.push(0);
        },
        Some(pc) => {
            out.push(1);
            out.push(pc.box_index);
            push_option_u64(out, pc.fixed_price);
        },
    }
    proof {
        assert(out@ =~= old(out)@ + settings_bytes(*s));
    }
}

/// The byte payload of one instruction, exactly `instruction_bytes`. An
/// initialization payload carries a whole configuration, whose tier list
/// must be well formed for its lengths to fit their wire fields.
pub fn instruction_data(ix: &MetaplexInstruction) -> (r: Vec<u8>)
    requires
        ix matches MetaplexInstruction::InitAuctionManager(s) ==> s.well_formed(),
    ensures
        r@ == instruction_bytes(*ix),
{
    let mut out: Vec<u8> = Vec::new();
    match ix {
        MetaplexInstruction::InitAuctionManager(s) => {
            out.push(0);
            push_settings(&mut out, s);
        },
        MetaplexInstruction::ValidateSafetyDepositBox => {
            out.push(1);
        },
        MetaplexInstruction::RedeemBid => {
            out.push(2);
        },
        MetaplexInstruction::RedeemFullRightsTransferBid => {
            out.push(3);
        },
        MetaplexInstruction::RedeemParticipationBid => {
            out.push(4);
        },
        MetaplexInstruction::StartAuction => {
            out.push(5);
        },
        MetaplexInstruction::ClaimBid => {
            out.push(6);
        },
        MetaplexInstruction::EmptyPaymentAccount(a) => {
            out.push(7);
            push_option_u8(&mut out, a.winning_config_index);
            push_option_u8(&mut out, a.winning_config_item_index);
            push_option_u8(&mut out, a.creator_index);
        },
        MetaplexInstruction::SetStore(a) => {
            out.push(8);
            out.push(if a.public { 1 } else { 0 });
        },
        MetaplexInstruction::SetWhitelistedCreator(a) => {
            out.push(9);
            out.push(if a.activated { 1 } else { 0 });
        },
        MetaplexInstruction::ValidateParticipation => {
            out.push(10);
        },
        MetaplexInstruction::PopulateParticipationPrintingAccount => {
            out.push(11);
        },
        MetaplexInstruction::RedeemUnusedWinningConfigItemsAsAuctioneer(a) => {
            out.push(12);
            out.push(a.winning_config_item_index);
            let proxy: u8 = match a.proxy_call {
                ProxyCallAddress::RedeemBid => 0,
                ProxyCallAddress::RedeemFullRightsTransferBid => 1,
            };
            out.push(proxy);
        },
        MetaplexInstruction::DecommissionAuctionManager => {
            out.push(13);
        },
    }
    proof {
        assert(out@ =~= instruction_bytes(*ix));
    }
    out
}

} // verus!
