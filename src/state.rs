//! Fixed-offset layouts of the two persistent records.
//!
//! Packet record (offsets in bytes): discriminator(1) = 1, creator(32) at 1,
//! id(8) at 33, total_amount(8) at 41, remaining_amount(8) at 49,
//! num_recipients(1) at 57, num_claimed(1) at 58, split_mode(1) at 59,
//! bump(1) at 60, vault_bump(1) at 61, token_type(1) at 62, expires_at(8) at
//! 63, amounts(8 x N) at 71, claimers(32 x N) at 71 + 8N. Integers are
//! little-endian.
//!
//! Treasury record: discriminator(1) = 2, bump(1) at 1, vault_bump(1) at 2,
//! accepted asset(32) at 3, fees collected(8) at 35 (native treasury only).
use crate::bytes::{
    i64_at, lemma_read_written_i64, lemma_read_written_u64, lemma_same_outside, read_i64, read_u64, same_outside, u64_at, write_bytes, write_i64, write_u64,
    bytes_equal,
};
use crate::constants::{REDPACKET_DISCRIMINATOR, TREASURY_DISCRIMINATOR};
use vstd::prelude::*;

verus! {

pub const DISCRIMINATOR_OFFSET: usize = 0;
pub const CREATOR_OFFSET: usize = 1;
pub const ID_OFFSET: usize = 33;
pub const TOTAL_AMOUNT_OFFSET: usize = 41;
pub const REMAINING_AMOUNT_OFFSET: usize = 49;
pub const NUM_RECIPIENTS_OFFSET: usize = 57;
pub const NUM_CLAIMED_OFFSET: usize = 58;
pub const SPLIT_MODE_OFFSET: usize = 59;
pub const BUMP_OFFSET: usize = 60;
pub const VAULT_BUMP_OFFSET: usize = 61;
pub const TOKEN_TYPE_OFFSET: usize = 62;
pub const EXPIRES_AT_OFFSET: usize = 63;
pub const AMOUNTS_OFFSET: usize = 71;

pub const TREASURY_BUMP_OFFSET: usize = 1;
pub const TREASURY_VAULT_BUMP_OFFSET: usize = 2;
pub const TREASURY_MINT_OFFSET: usize = 3;
pub const TREASURY_FEES_OFFSET: usize = 35;

/// Where the claimer slots begin in a record with `n` recipients.
pub open spec fn claimers_start(n: int) -> int {
    71 + 8 * n
}

/// Where slot `i`'s amount lies.
pub open spec fn amount_pos(i: int) -> int {
    71 + 8 * i
}

/// Where slot `i`'s claimer lies in a record with `n` recipients.
pub open spec fn claimer_pos(n: int, i: int) -> int {
    71 + 8 * n + 32 * i
}

/// The fields of a packet record.
pub struct PacketView {
    pub creator: Seq<u8>,
    pub id: u64,
    pub total_amount: u64,
    pub remaining_amount: u64,
    pub num_recipients: u8,
    pub num_claimed: u8,
    pub split_mode: u8,
    pub bump: u8,
    pub vault_bump: u8,
    pub token_type: u8,
    pub expires_at: i64,
    pub amounts: Seq<u64>,
    pub claimers: Seq<Seq<u8>>,
}

/// The record that the bytes `d` hold (meaningful where `packet_fits(d)`).
pub open spec fn packet_of(d: Seq<u8>) -> PacketView {
    let n = d[57] as int;
    PacketView {
        creator: d.subrange(1, 33),
        id: u64_at(d, 33),
        total_amount: u64_at(d, 41),
        remaining_amount: u64_at(d, 49),
        num_recipients: d[57],
        num_claimed: d[58],
        split_mode: d[59],
        bump: d[60],
        vault_bump: d[61],
        token_type: d[62],
        expires_at: i64_at(d, 63),
        amounts: Seq::new(n as nat, |i: int| u64_at(d, amount_pos(i))),
        claimers: Seq::new(n as nat, |i: int| d.subrange(claimer_pos(n, i), claimer_pos(n, i) + 32)),
    }
}

/// The buffer is long enough for the recipient count it declares.
pub open spec fn packet_fits(d: Seq<u8>) -> bool {
    &&& d.len() >= 71
    &&& d.len() >= 71 + 40 * (d[57] as int)
}

/// Packet records of the same length whose bytes differ only inside
/// `[lo, hi)` agree on every field that lies outside it.
pub proof fn lemma_packet_frame(d1: Seq<u8>, d2: Seq<u8>, lo: int, hi: int)
    requires
        same_outside(d1, d2, lo, hi),
        packet_fits(d1),
        !(lo <= 57 < hi),
    ensures
        packet_fits(d2),
        d2[57] == d1[57],
        hi <= 1 || 33 <= lo ==> packet_of(d2).creator == packet_of(d1).creator,
        hi <= 33 || 41 <= lo ==> packet_of(d2).id == packet_of(d1).id,
        hi <= 41 || 49 <= lo ==> packet_of(d2).total_amount == packet_of(d1).total_amount,
        hi <= 49 || 57 <= lo ==> packet_of(d2).remaining_amount == packet_of(d1).remaining_amount,
        !(lo <= 58 < hi) ==> packet_of(d2).num_claimed == packet_of(d1).num_claimed,
        !(lo <= 59 < hi) ==> packet_of(d2).split_mode == packet_of(d1).split_mode,
        !(lo <= 60 < hi) ==> packet_of(d2).bump == packet_of(d1).bump,
        !(lo <= 61 < hi) ==> packet_of(d2).vault_bump == packet_of(d1).vault_bump,
        !(lo <= 62 < hi) ==> packet_of(d2).token_type == packet_of(d1).token_type,
        hi <= 63 || 71 <= lo ==> packet_of(d2).expires_at == packet_of(d1).expires_at,
        forall|i: int|
            0 <= i < d1[57] && (hi <= amount_pos(i) || amount_pos(i) + 8 <= lo) ==> packet_of(d2).amounts[i]
                == #[trigger] packet_of(d1).amounts[i],
        forall|i: int|
            0 <= i < d1[57] && (hi <= claimer_pos(d1[57] as int, i) || claimer_pos(d1[57] as int, i) + 32
                <= lo) ==> packet_of(d2).claimers[i] == #[trigger] packet_of(d1).claimers[i],
        hi <= 71 ==> packet_of(d2).amounts == packet_of(d1).amounts,
        hi <= 71 + 8 * d1[57] || lo >= 71 + 40 * d1[57] ==> packet_of(d2).claimers == packet_of(d1).claimers,
        lo >= 71 + 8 * d1[57] ==> packet_of(d2).amounts == packet_of(d1).amounts,
{
    lemma_same_outside(d1, d2, lo, hi);
    let n = d1[57] as int;
    let v1 = packet_of(d1);
    let v2 = packet_of(d2);
    assert forall|i: int|
        0 <= i < n && (hi <= amount_pos(i) || amount_pos(i) + 8 <= lo) implies v2.amounts[i]
        == #[trigger] v1.amounts[i] by {
        assert(d1.subrange(amount_pos(i), amount_pos(i) + 8) == d2.subrange(amount_pos(i), amount_pos(i) + 8));
    }
    assert forall|i: int|
        0 <= i < n && (hi <= claimer_pos(n, i) || claimer_pos(n, i) + 32 <= lo) implies v2.claimers[i]
        == #[trigger] v1.claimers[i] by {
        assert(d1.subrange(claimer_pos(n, i), claimer_pos(n, i) + 32) == d2.subrange(claimer_pos(n, i), claimer_pos(n, i) + 32));
    }
    if hi <= 71 || lo >= 71 + 8 * n {
        assert(v2.amounts =~= v1.amounts);
    }
    if hi <= 71 + 8 * n || lo >= 71 + 40 * n {
        assert(v2.claimers =~= v1.claimers);
    }
}

pub proof fn lemma_amount_at(d: Seq<u8>, i: int)
    requires
        0 <= i < d[57],
    ensures
        packet_of(d).amounts[i] == u64_at(d, amount_pos(i)),
{
}

// === Packet readers ===

pub fn get_creator(data: &[u8]) -> (r: &[u8])
    requires
        data.len() >= 71,
    ensures
        r@ == packet_of(data@).creator,
{
    &data[CREATOR_OFFSET..CREATOR_OFFSET + 32]
}

pub fn get_id(data: &[u8]) -> (r: u64)
    requires
        data.len() >= 71,
    ensures
        r == packet_of(data@).id,
{
    read_u64(data, ID_OFFSET)
}

pub fn get_total_amount(data: &[u8]) -> (r: u64)
    requires
        data.len() >= 71,
    ensures
        r == packet_of(data@).total_amount,
{
    read_u64(data, TOTAL_AMOUNT_OFFSET)
}

pub fn get_remaining_amount(data: &[u8]) -> (r: u64)
    requires
        data.len() >= 71,
    ensures
        r == packet_of(data@).remaining_amount,
{
    read_u64(data, REMAINING_AMOUNT_OFFSET)
}

pub fn get_num_recipients(data: &[u8]) -> (r: u8)
    requires
        data.len() >= 71,
    ensures
        r == packet_of(data@).num_recipients,
{
    data[NUM_RECIPIENTS_OFFSET]
}

pub fn get_num_claimed(data: &[u8]) -> (r: u8)
    requires
        data.len() >= 71,
    ensures
        r == packet_of(data@).num_claimed,
{
    data[NUM_CLAIMED_OFFSET]
}

pub fn get_split_mode(data: &[u8]) -> (r: u8)
    requires
        data.len() >= 71,
    ensures
        r == packet_of(data@).split_mode,
{
    data[SPLIT_MODE_OFFSET]
}

pub fn get_bump(data: &[u8]) -> (r: u8)
    requires
        data.len() >= 71,
    ensures
        r == packet_of(data@).bump,
{
    data[BUMP_OFFSET]
}

pub fn get_vault_bump(data: &[u8]) -> (r: u8)
    requires
        data.len() >= 71,
    ensures
        r == packet_of(data@).vault_bump,
{
    data[VAULT_BUMP_OFFSET]
}

pub fn get_token_type(data: &[u8]) -> (r: u8)
    requires
        data.len() >= 71,
    ensures
        r == packet_of(data@).token_type,
{
    data[TOKEN_TYPE_OFFSET]
}

pub fn get_expires_at(data: &[u8]) -> (r: i64)
    requires
        data.len() >= 71,
    ensures
        r == packet_of(data@).expires_at,
{
    read_i64(data, EXPIRES_AT_OFFSET)
}

/// The amount of slot `index`.
pub fn get_amount_at(data: &[u8], index: u8) -> (r: u64)
    requires
        packet_fits(data@),
        index < data@[57],
    ensures
        r == packet_of(data@).amounts[index as int],
{
    let offset = AMOUNTS_OFFSET + 8 * (index as usize);
    read_u64(data, offset)
}

fn claimers_offset(num_recipients: u8) -> (r: usize)
    ensures
        r == claimers_start(num_recipients as int),
{
    AMOUNTS_OFFSET + 8 * (num_recipients as usize)
}

/// The claimer in slot `index` of a record with `num_recipients` slots.
pub fn get_claimer_at(data: &[u8], num_recipients: u8, index: u8) -> (r: &[u8])
    requires
        packet_fits(data@),
        num_recipients == data@[57],
        index < num_recipients,
    ensures
        r@ == packet_of(data@).claimers[index as int],
{
    let base = claimers_offset(num_recipients);
    let offset = base + 32 * (index as usize);
    &data[offset..offset + 32]
}

/// Whether `claimer` fills one of the first `num_claimed` slots.
pub fn has_claimed(data: &[u8], num_recipients: u8, num_claimed: u8, claimer: &[u8]) -> (r: bool)
    requires
        packet_fits(data@),
        num_recipients == data@[57],
        num_claimed <= num_recipients,
    ensures
        r == (exists|i: int|
            0 <= i < num_claimed && #[trigger] packet_of(data@).claimers[i] == claimer@),
{
    let mut i: u8 = 0;
    while i < num_claimed
        invariant
            0 <= i <= num_claimed <= num_recipients,
            packet_fits(data@),
            num_recipients == data@[57],
            forall|j: int| 0 <= j < i ==> #[trigger] packet_of(data@).claimers[j] != claimer@,
        decreases num_claimed - i,
    {
        if bytes_equal(get_claimer_at(data, num_recipients, i), claimer) {
            return true;
        }
        i += 1;
    }
    false
}

// === Packet writers ===

pub fn set_remaining_amount(data: &mut [u8], amount: u64)
    requires
        packet_fits(old(data)@),
    ensures
        final(data)@.len() == old(data)@.len(),
        final(data)@[0] == old(data)@[0],
        packet_fits(final(data)@),
        packet_of(final(data)@) == (PacketView { remaining_amount: amount, ..packet_of(old(data)@) }),
{
    let ghost d0 = data@;
    write_u64(data, REMAINING_AMOUNT_OFFSET, amount);
    proof {
        lemma_read_written_u64(d0, 49, amount);
        lemma_packet_frame(d0, data@, 49, 57);
    }
}

pub fn set_num_claimed(data: &mut [u8], count: u8)
    requires
        packet_fits(old(data)@),
    ensures
        final(data)@.len() == old(data)@.len(),
        final(data)@[0] == old(data)@[0],
        packet_fits(final(data)@),
        packet_of(final(data)@) == (PacketView { num_claimed: count, ..packet_of(old(data)@) }),
{
    let ghost d0 = data@;
    data[NUM_CLAIMED_OFFSET] = count;
    proof {
        assert(same_outside(d0, data@, 58, 59));
        lemma_packet_frame(d0, data@, 58, 59);
    }
}

/// Puts `claimer` into slot `index`.
pub fn set_claimer_at(data: &mut [u8], num_recipients: u8, index: u8, claimer: &[u8])
    requires
        packet_fits(old(data)@),
        num_recipients == old(data)@[57],
        index < num_recipients,
        claimer@.len() == 32,
    ensures
        final(data)@.len() == old(data)@.len(),
        final(data)@[0] == old(data)@[0],
        packet_fits(final(data)@),
        packet_of(final(data)@) == (PacketView {
            claimers: packet_of(old(data)@).claimers.update(index as int, claimer@),
            ..packet_of(old(data)@)
        }),
{
    let ghost d0 = data@;
    let base = claimers_offset(num_recipients);
    let offset = base + 32 * (index as usize);
    write_bytes(data, offset, claimer);
    proof {
        let n = num_recipients as int;
        lemma_packet_frame(d0, data@, offset as int, offset + 32);
        let v1 = packet_of(d0);
        let v2 = packet_of(data@);
        assert(v2.amounts =~= v1.amounts);
        assert(v2.claimers =~= v1.claimers.update(index as int, claimer@));
    }
}


fn set_byte(data: &mut [u8], offset: usize, value: u8)
    requires
        offset < old(data).len(),
    ensures
        same_outside(old(data)@, final(data)@, offset as int, offset + 1),
        final(data)@[offset as int] == value,
{
    data[offset] = value;
}

/// The claimer slots that bytes `d` would hold in a record of `n` recipients.
pub open spec fn claimer_slots(d: Seq<u8>, n: int) -> Seq<Seq<u8>> {
    Seq::new(n as nat, |i: int| d.subrange(claimer_pos(n, i), claimer_pos(n, i) + 32))
}

/// Writes a fresh packet record: every field but the claimer slots, with
/// nothing claimed and the whole deposit remaining.
pub fn init_redpacket(
    data: &mut [u8],
    creator: &[u8],
    id: u64,
    total_amount: u64,
    num_recipients: u8,
    split_mode: u8,
    bump: u8,
    vault_bump: u8,
    token_type: u8,
    expires_at: i64,
    amounts: &[u64],
)
    requires
        old(data).len() >= 71 + 40 * num_recipients,
        creator@.len() == 32,
        amounts@.len() == num_recipients,
    ensures
        final(data)@.len() == old(data)@.len(),
        final(data)@[0] == REDPACKET_DISCRIMINATOR,
        packet_fits(final(data)@),
        packet_of(final(data)@) == (PacketView {
            creator: creator@,
            id,
            total_amount,
            remaining_amount: total_amount,
            num_recipients,
            num_claimed: 0,
            split_mode,
            bump,
            vault_bump,
            token_type,
            expires_at,
            amounts: amounts@,
            claimers: claimer_slots(old(data)@, num_recipients as int),
        }),
{
    let ghost d0 = data@;
    let ghost n = num_recipients as int;
    set_byte(data, NUM_RECIPIENTS_OFFSET, num_recipients);
    let ghost d1 = data@;
    assert(packet_fits(d1));
    set_byte(data, DISCRIMINATOR_OFFSET, REDPACKET_DISCRIMINATOR);
    let ghost d2 = data@;
    proof { lemma_packet_frame(d1, d2, 0, 1); }
    write_bytes(data, CREATOR_OFFSET, creator);
    let ghost d3 = data@;
    proof { lemma_packet_frame(d2, d3, 1, 33); }
    write_u64(data, ID_OFFSET, id);
    let ghost d4 = data@;
    proof { lemma_read_written_u64(d3, 33, id); lemma_packet_frame(d3, d4, 33, 41); }
    write_u64(data, TOTAL_AMOUNT_OFFSET, total_amount);
    let ghost d5 = data@;
    proof { lemma_read_written_u64(d4, 41, total_amount); lemma_packet_frame(d4, d5, 41, 49); }
    write_u64(data, REMAINING_AMOUNT_OFFSET, total_amount);
    let ghost d6 = data@;
    proof { lemma_read_written_u64(d5, 49, total_amount); lemma_packet_frame(d5, d6, 49, 57); }
    set_byte(data, NUM_CLAIMED_OFFSET, 0);
    let ghost d7 = data@;
    proof { lemma_packet_frame(d6, d7, 58, 59); }
    set_byte(data, SPLIT_MODE_OFFSET, split_mode);
    let ghost d8 = data@;
    proof { lemma_packet_frame(d7, d8, 59, 60); }
    set_byte(data, BUMP_OFFSET, bump);
    let ghost d9 = data@;
    proof { lemma_packet_frame(d8, d9, 60, 61); }
    set_byte(data, VAULT_BUMP_OFFSET, vault_bump);
    let ghost d10 = data@;
    proof { lemma_packet_frame(d9, d10, 61, 62); }
    set_byte(data, TOKEN_TYPE_OFFSET, token_type);
    let ghost d11 = data@;
    proof { lemma_packet_frame(d10, d11, 62, 63); }
    write_i64(data, EXPIRES_AT_OFFSET, expires_at);
    let ghost d12 = data@;
    proof { lemma_read_written_i64(d11, 63, expires_at); lemma_packet_frame(d11, d12, 63, 71); }
    let ghost head = packet_of(d12);
    assert(head.creator == creator@);
    assert(forall|j: int| 71 <= j < d0.len() ==> d12[j] == d0[j]);
    let mut i: usize = 0;
    while i < amounts.len()
        invariant
            0 <= i <= amounts@.len(),
            amounts@.len() == n,
            n == num_recipients,
            packet_fits(data@),
            data@.len() == d0.len(),
            data.len() >= 71 + 40 * n,
            data@[0] == REDPACKET_DISCRIMINATOR,
            data@[57] == num_recipients,
            packet_of(data@) == (PacketView { amounts: packet_of(data@).amounts, ..head }),
            forall|j: int| 0 <= j < i ==> #[trigger] packet_of(data@).amounts[j] == amounts@[j],
            forall|j: int| 71 + 8 * n <= j < d0.len() ==> data@[j] == d0[j],
        decreases amounts@.len() - i,
    {
        let ghost before = data@;
        write_u64(data, AMOUNTS_OFFSET + 8 * i, amounts[i]);
        proof {
            lemma_read_written_u64(before, amount_pos(i as int), amounts@[i as int]);
            lemma_packet_frame(before, data@, amount_pos(i as int), amount_pos(i as int) + 8);
            lemma_amount_at(data@, i as int);
            assert(packet_of(data@).amounts[i as int] == amounts@[i as int]);
            assert forall|j: int| 0 <= j < i implies #[trigger] packet_of(data@).amounts[j] == amounts@[j] by {
                assert(packet_of(before).amounts[j] == amounts@[j]);
            }
        }
        i += 1;
    }
    proof {
        let p = packet_of(data@);
        assert(p.amounts =~= amounts@);
        assert forall|k: int| 0 <= k < n implies #[trigger] p.claimers[k] == claimer_slots(d0, n)[k] by {
            assert(data@.subrange(claimer_pos(n, k), claimer_pos(n, k) + 32) =~= d0.subrange(
                claimer_pos(n, k),
                claimer_pos(n, k) + 32,
            ));
        }
        assert(p.claimers =~= claimer_slots(d0, n));
    }
}


// === Treasury record ===

/// The fields of a treasury record.
pub struct TreasuryView {
    pub bump: u8,
    pub vault_bump: u8,
    pub mint: Seq<u8>,
    pub fees_collected: u64,
}

/// The treasury that the bytes `d` hold (meaningful where `d.len() >= 43`).
pub open spec fn treasury_of(d: Seq<u8>) -> TreasuryView {
    TreasuryView { bump: d[1], vault_bump: d[2], mint: d.subrange(3, 35), fees_collected: u64_at(d, 35) }
}

/// Writes a fresh treasury record; the fee counter keeps the bytes it had.
pub fn init_treasury(data: &mut [u8], bump: u8, vault_bump: u8, mint: &[u8])
    requires
        old(data).len() >= 43,
        mint@.len() == 32,
    ensures
        final(data)@.len() == old(data)@.len(),
        final(data)@[0] == TREASURY_DISCRIMINATOR,
        treasury_of(final(data)@) == (TreasuryView {
            bump,
            vault_bump,
            mint: mint@,
            fees_collected: treasury_of(old(data)@).fees_collected,
        }),
{
    let ghost d0 = data@;
    data[0] = TREASURY_DISCRIMINATOR;
    data[TREASURY_BUMP_OFFSET] = bump;
    data[TREASURY_VAULT_BUMP_OFFSET] = vault_bump;
    let ghost d1 = data@;
    assert(same_outside(d0, d1, 0, 3));
    write_bytes(data, TREASURY_MINT_OFFSET, mint);
    proof {
        assert(data@[0] == d1[0]);
        assert(data@[1] == d1[1]);
        assert(data@[2] == d1[2]);
        assert(data@.subrange(35, 43) =~= d0.subrange(35, 43));
    }
}

pub fn get_treasury_bump(data: &[u8]) -> (r: u8)
    requires
        data.len() >= 43,
    ensures
        r == treasury_of(data@).bump,
{
    data[TREASURY_BUMP_OFFSET]
}

pub fn get_treasury_vault_bump(data: &[u8]) -> (r: u8)
    requires
        data.len() >= 43,
    ensures
        r == treasury_of(data@).vault_bump,
{
    data[TREASURY_VAULT_BUMP_OFFSET]
}

pub fn get_treasury_mint(data: &[u8]) -> (r: &[u8])
    requires
        data.len() >= 43,
    ensures
        r@ == treasury_of(data@).mint,
{
    &data[TREASURY_MINT_OFFSET..TREASURY_MINT_OFFSET + 32]
}

pub fn get_sol_fees_collected(data: &[u8]) -> (r: u64)
    requires
        data.len() >= 43,
    ensures
        r == treasury_of(data@).fees_collected,
{
    read_u64(data, TREASURY_FEES_OFFSET)
}

pub fn set_sol_fees_collected(data: &mut [u8], amount: u64)
    requires
        old(data).len() >= 43,
    ensures
        final(data)@.len() == old(data)@.len(),
        final(data)@[0] == old(data)@[0],
        treasury_of(final(data)@) == (TreasuryView { fees_collected: amount, ..treasury_of(old(data)@) }),
{
    let ghost d0 = data@;
    write_u64(data, TREASURY_FEES_OFFSET, amount);
    proof {
        lemma_read_written_u64(d0, 35, amount);
        lemma_same_outside(d0, data@, 35, 43);
    }
}

} // verus!
