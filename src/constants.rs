//! Fixed parameters of the program: tags, limits, sizes and identities.
use crate::address::Address;
use vstd::prelude::*;

verus! {

/// Asset kinds.
pub const TOKEN_TYPE_SPL: u8 = 0;
pub const TOKEN_TYPE_SOL: u8 = 1;

/// Most recipients that one packet may declare.
pub const MAX_RECIPIENTS: u8 = 20;

/// Leading byte of each record kind.
pub const REDPACKET_DISCRIMINATOR: u8 = 1;
pub const TREASURY_DISCRIMINATOR: u8 = 2;

/// Split policies.
pub const SPLIT_EVEN: u8 = 0;
pub const SPLIT_RANDOM: u8 = 1;

/// Fee: 10 basis points of the deposit, at least one unit.
pub const FEE_RATE_BPS: u64 = 10;
pub const FEE_DENOMINATOR: u64 = 10_000;

/// Record sizes in bytes.
pub const REDPACKET_BASE_SIZE: usize = 71;
pub const PER_RECIPIENT_SIZE: usize = 40;
pub const TREASURY_SIZE: usize = 43;
pub const TOKEN_ACCOUNT_SIZE: usize = 165;

/// Size of a packet record for `n` recipients.
pub open spec fn packet_size(n: u8) -> int {
    71 + 40 * n
}

/// Storage deposit that keeps an account of `len` bytes alive.
pub open spec fn rent_floor(len: int) -> int {
    (len + 128) * 2 * 3480
}

/// The byte length of a packet record with `num_recipients` slots.
pub fn redpacket_size(num_recipients: u8) -> (r: usize)
    ensures
        r == packet_size(num_recipients),
{
    REDPACKET_BASE_SIZE + PER_RECIPIENT_SIZE * (num_recipients as usize)
}

/// The minimum balance that exempts an account of `data_len` bytes from rent.
pub fn rent_exempt(data_len: usize) -> (r: u64)
    requires
        rent_floor(data_len as int) <= u64::MAX,
    ensures
        r == rent_floor(data_len as int),
{
    ((data_len as u64) + 128) * 2 * 3480
}

/// Tag of a packet record's derived address.
pub open spec fn packet_tag() -> Seq<u8> {
    seq![114u8, 101, 100, 112, 97, 99, 107, 101, 116]
}

/// Tag of a packet vault's derived address.
pub open spec fn vault_tag() -> Seq<u8> {
    seq![118u8, 97, 117, 108, 116]
}

/// Tag of a treasury record's derived address.
pub open spec fn treasury_tag() -> Seq<u8> {
    seq![116u8, 114, 101, 97, 115, 117, 114, 121]
}

/// Tag of a treasury vault's derived address.
pub open spec fn treasury_vault_tag() -> Seq<u8> {
    seq![116u8, 114, 101, 97, 115, 117, 114, 121, 95, 118, 97, 117, 108, 116]
}

/// `"redpacket"`
pub fn seed_prefix() -> (r: Vec<u8>)
    ensures
        r@ == packet_tag(),
{
    let r = vec![114u8, 101, 100, 112, 97, 99, 107, 101, 116];
    assert(r@ =~= packet_tag());
    r
}

/// `"vault"`
pub fn vault_seed() -> (r: Vec<u8>)
    ensures
        r@ == vault_tag(),
{
    let r = vec![118u8, 97, 117, 108, 116];
    assert(r@ =~= vault_tag());
    r
}

/// `"treasury"`
pub fn treasury_seed() -> (r: Vec<u8>)
    ensures
        r@ == treasury_tag(),
{
    let r = vec![116u8, 114, 101, 97, 115, 117, 114, 121];
    assert(r@ =~= treasury_tag());
    r
}

/// `"treasury_vault"`
pub fn treasury_vault_seed() -> (r: Vec<u8>)
    ensures
        r@ == treasury_vault_tag(),
{
    let r = vec![116u8, 114, 101, 97, 115, 117, 114, 121, 95, 118, 97, 117, 108, 116];
    assert(r@ =~= treasury_vault_tag());
    r
}

/// The stand-in asset identity of the native coin's treasury: 32 bytes of 0xFF.
pub open spec fn native_mint_bytes() -> Seq<u8> {
    Seq::new(32, |i: int| 0xFFu8)
}

pub fn native_sol_mint() -> (r: Address)
    ensures
        r@ == native_mint_bytes(),
{
    let r = Address::new([0xFFu8; 32]);
    assert(r@ =~= native_mint_bytes());
    r
}

/// The system program's identity: 32 zero bytes.
pub open spec fn system_program_bytes() -> Seq<u8> {
    Seq::new(32, |i: int| 0u8)
}

pub fn system_program_id() -> (r: Address)
    ensures
        r@ == system_program_bytes(),
{
    Address::zero()
}

/// The identities a deployment is configured with: the program's own, the
/// fee administrator's and the token program's.
#[derive(Clone, Copy, Debug)]
pub struct Config {
    pub program_id: Address,
    pub admin: Address,
    pub token_program: Address,
}

} // verus!
