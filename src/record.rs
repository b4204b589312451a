//! Packet records as typed values, and the codec between them and bytes.
use crate::address::Address;
use crate::constants::{redpacket_size, REDPACKET_BASE_SIZE, REDPACKET_DISCRIMINATOR};
use crate::error::{ProgramError, RedPacketError};
use crate::state::{
    get_amount_at, get_bump, get_claimer_at, get_creator, get_expires_at, get_id,
    get_num_claimed, get_num_recipients, get_remaining_amount, get_split_mode, get_token_type,
    get_total_amount, get_vault_bump, init_redpacket, packet_fits, packet_of, set_claimer_at,
    set_num_claimed, set_remaining_amount, PacketView,
};
use vstd::prelude::*;

verus! {

/// The byte strings of a sequence of addresses.
pub open spec fn address_views(s: Seq<Address>) -> Seq<Seq<u8>> {
    s.map_values(|a: Address| a@)
}

/// A decoded packet record.
#[derive(Clone, Debug)]
pub struct RedPacketAccount {
    pub creator: Address,
    pub id: u64,
    pub total_amount: u64,
    pub remaining_amount: u64,
    pub num_recipients: u8,
    pub num_claimed: u8,
    pub split_mode: u8,
    pub bump: u8,
    pub vault_bump: u8,
    pub token_type: u8,
    pub expires_at: i64,
    pub amounts: Vec<u64>,
    pub claimers: Vec<Address>,
}

impl View for RedPacketAccount {
    type V = PacketView;

    open spec fn view(&self) -> PacketView {
        PacketView {
            creator: self.creator@,
            id: self.id,
            total_amount: self.total_amount,
            remaining_amount: self.remaining_amount,
            num_recipients: self.num_recipients,
            num_claimed: self.num_claimed,
            split_mode: self.split_mode,
            bump: self.bump,
            vault_bump: self.vault_bump,
            token_type: self.token_type,
            expires_at: self.expires_at,
            amounts: self.amounts@,
            claimers: address_views(self.claimers@),
        }
    }
}

/// The record has one amount and one claimer slot per recipient, and every
/// identity is 32 bytes long.
pub open spec fn packet_shape(v: PacketView) -> bool {
    &&& v.creator.len() == 32
    &&& v.amounts.len() == v.num_recipients
    &&& v.claimers.len() == v.num_recipients
    &&& forall|i: int| 0 <= i < v.claimers.len() ==> (#[trigger] v.claimers[i]).len() == 32
}

/// What decoding the bytes `d` gives.
pub open spec fn decode_packet(d: Seq<u8>) -> Result<PacketView, ProgramError> {
    if d.len() < 71 {
        Err(ProgramError::InvalidAccountData)
    } else if d[0] != REDPACKET_DISCRIMINATOR {
        Err(ProgramError::Custom(RedPacketError::InvalidDiscriminator))
    } else if !packet_fits(d) {
        Err(ProgramError::InvalidAccountData)
    } else {
        Ok(packet_of(d))
    }
}

/// `d` is the byte image of the record `v`: exactly its size, the packet
/// discriminator first, and every field in place.
pub open spec fn encodes(d: Seq<u8>, v: PacketView) -> bool {
    &&& d.len() == 71 + 40 * v.num_recipients
    &&& d[0] == REDPACKET_DISCRIMINATOR
    &&& packet_fits(d)
    &&& packet_of(d) == v
}

/// Decodes a packet record, checking its length against the recipient count
/// it declares and its discriminator.
pub fn decode_red_packet(data: &[u8]) -> (r: Result<RedPacketAccount, ProgramError>)
    ensures
        match r {
            Ok(rp) => decode_packet(data@) == Ok::<PacketView, ProgramError>(rp@),
            Err(e) => decode_packet(data@) == Err::<PacketView, ProgramError>(e),
        },
{
    if data.len() < REDPACKET_BASE_SIZE {
        return Err(ProgramError::InvalidAccountData);
    }
    if data[0] != REDPACKET_DISCRIMINATOR {
        return Err(ProgramError::Custom(RedPacketError::InvalidDiscriminator));
    }
    let n = get_num_recipients(data);
    if data.len() < redpacket_size(n) {
        return Err(ProgramError::InvalidAccountData);
    }
    let ghost p = packet_of(data@);
    let mut amounts: Vec<u64> = Vec::new();
    let mut claimers: Vec<Address> = Vec::new();
    let mut i: u8 = 0;
    while i < n
        invariant
            0 <= i <= n,
            n == data@[57],
            packet_fits(data@),
            p == packet_of(data@),
            amounts@ == p.amounts.subrange(0, i as int),
            claimers@.len() == i,
            address_views(claimers@) == p.claimers.subrange(0, i as int),
        decreases n - i,
    {
        amounts.push(get_amount_at(data, i));
        let c = get_claimer_at(data, n, i);
        let a = Address::from_slice(c, 0);
        assert(c@.subrange(0, 32) =~= c@);
        let ghost before = claimers@;
        claimers.push(a);
        assert forall|j: int| 0 <= j <= i implies #[trigger] address_views(claimers@)[j]
            == p.claimers[j] by {
            assert(claimers@[j] == if j < i { before[j] } else { a });
            if j < i {
                assert(address_views(before)[j] == p.claimers.subrange(0, i as int)[j]);
                assert(address_views(before)[j] == before[j]@);
            }
            assert(address_views(claimers@)[j] == claimers@[j]@);
        }
        i += 1;
        assert(amounts@ =~= p.amounts.subrange(0, i as int));
        assert(address_views(claimers@) =~= p.claimers.subrange(0, i as int));
    }
    let rp = RedPacketAccount {
        creator: Address::from_slice(get_creator(data), 0),
        id: get_id(data),
        total_amount: get_total_amount(data),
        remaining_amount: get_remaining_amount(data),
        num_recipients: n,
        num_claimed: get_num_claimed(data),
        split_mode: get_split_mode(data),
        bump: get_bump(data),
        vault_bump: get_vault_bump(data),
        token_type: get_token_type(data),
        expires_at: get_expires_at(data),
        amounts,
        claimers,
    };
    assert(p.creator.subrange(0, 32) =~= p.creator);
    assert(p.amounts.subrange(0, n as int) =~= p.amounts);
    assert(p.claimers.subrange(0, n as int) =~= p.claimers);
    assert(rp@ =~= p);
    Ok(rp)
}

/// Encodes a record into its byte image.
pub fn encode_red_packet(rp: &RedPacketAccount) -> (r: Vec<u8>)
    requires
        packet_shape(rp@),
    ensures
        encodes(r@, rp@),
{
    let n = rp.num_recipients;
    let mut buf: Vec<u8> = vec![0u8; redpacket_size(n)];
    let creator = rp.creator.to_vec();
    init_redpacket(
        buf.as_mut_slice(),
        creator.as_slice(),
        rp.id,
        rp.total_amount,
        n,
        rp.split_mode,
        rp.bump,
        rp.vault_bump,
        rp.token_type,
        rp.expires_at,
        rp.amounts.as_slice(),
    );
    let ghost base = packet_of(buf@);
    let mut i: u8 = 0;
    while i < n
        invariant
            0 <= i <= n,
            n == rp.num_recipients,
            packet_shape(rp@),
            buf@.len() == 71 + 40 * n,
            buf@[0] == REDPACKET_DISCRIMINATOR,
            packet_fits(buf@),
            buf@[57] == n,
            packet_of(buf@) == (PacketView { claimers: packet_of(buf@).claimers, ..base }),
            packet_of(buf@).claimers.len() == n,
            forall|j: int| 0 <= j < i ==> #[trigger] packet_of(buf@).claimers[j] == rp@.claimers[j],
        decreases n - i,
    {
        let c = rp.claimers[i as usize].to_vec();
        proof {
            assert(rp@.claimers[i as int] == rp.claimers@[i as int]@);
        }
        set_claimer_at(buf.as_mut_slice(), n, i, c.as_slice());
        i += 1;
    }
    set_num_claimed(buf.as_mut_slice(), rp.num_claimed);
    set_remaining_amount(buf.as_mut_slice(), rp.remaining_amount);
    proof {
        let p = packet_of(buf@);
        assert(p.claimers =~= rp@.claimers);
        assert(p =~= rp@);
    }
    buf
}

/// Decoding the byte image of a well-shaped record gives the record back.
pub proof fn lemma_packet_round_trip(v: PacketView, d: Seq<u8>)
    requires
        packet_shape(v),
        encodes(d, v),
    ensures
        decode_packet(d) == Ok::<PacketView, ProgramError>(v),
{
}

} // verus!
