//! What the front-end service decides before it hands a transaction to a
//! wallet: a packet's status, the instruction payloads it encodes, the
//! integer part of a random split, and the derived addresses it looks up.
use crate::address::Address;
use crate::bytes::{
    i64_bytes, i64_le_bytes, lemma_signed_round_trip, lemma_u64_bytes, u64_bytes, unsigned_of,
};
use crate::constants::{native_mint_bytes, native_sol_mint, SPLIT_RANDOM, TOKEN_TYPE_SOL};
use crate::create::{
    create_expiry, create_id, create_n, create_rp_bump, create_split, create_total,
    create_vault_bump,
};
use crate::derive::{
    find_program_address, found_program_address, packet_seed_list, packet_seeds,
    treasury_seed_list, treasury_seeds, vault_seed_list, vault_seeds,
};
use crate::entry::{OP_CLAIM, OP_CLOSE, OP_CREATE};
use crate::record::RedPacketAccount;
use crate::rules::{fee_of, sum_all, sum_prefix};
use crate::state::PacketView;
use vstd::bytes::u64_to_le_bytes;
use vstd::prelude::*;

verus! {

/// The fee the program will charge on a deposit of `total_amount`.
pub fn compute_fee(total_amount: u64) -> (r: u64)
    requires
        total_amount * 10 <= u64::MAX,
    ensures
        r == fee_of(total_amount),
{
    let fee = total_amount * 10 / 10_000;
    if fee > 0 {
        fee
    } else {
        1
    }
}

/// A packet's status as shown to people.
pub enum PacketStatus {
    FullyClaimed,
    Expired,
    Active,
}

pub open spec fn status_of(v: PacketView, now: i64) -> PacketStatus {
    if v.num_claimed >= v.num_recipients {
        PacketStatus::FullyClaimed
    } else if now >= v.expires_at {
        PacketStatus::Expired
    } else {
        PacketStatus::Active
    }
}

/// `"fully_claimed"` when every slot is taken, else `"expired"` once the
/// deadline has passed, else `"active"`.
pub fn get_status(rp: &RedPacketAccount, now_unix: i64) -> (r: &'static str)
    ensures
        status_of(rp@, now_unix) is FullyClaimed ==> r@ == "fully_claimed"@,
        status_of(rp@, now_unix) is Expired ==> r@ == "expired"@,
        status_of(rp@, now_unix) is Active ==> r@ == "active"@,
{
    if rp.num_claimed >= rp.num_recipients {
        "fully_claimed"
    } else if now_unix >= rp.expires_at {
        "expired"
    } else {
        "active"
    }
}


/// The bytes of the slot amounts in a create payload: `n` little-endian
/// words, taken from `a` while it lasts and zero after.
pub open spec fn slot_bytes(a: Seq<u64>, n: int) -> Seq<u8>
    decreases n,
{
    if n <= 0 {
        Seq::empty()
    } else {
        slot_bytes(a, n - 1) + u64_bytes(if n - 1 < a.len() { a[n - 1] } else { 0 })
    }
}

/// The Create payload for a native-coin packet.
pub open spec fn create_payload(
    id: u64,
    total_amount: u64,
    num_recipients: u8,
    split_mode: u8,
    expires_at: i64,
    rp_bump: u8,
    vault_bump: u8,
    amounts: Seq<u64>,
) -> Seq<u8> {
    seq![OP_CREATE, TOKEN_TYPE_SOL] + u64_bytes(id) + u64_bytes(total_amount) + seq![num_recipients, split_mode]
        + i64_bytes(expires_at) + seq![rp_bump, vault_bump] + if split_mode == SPLIT_RANDOM {
        slot_bytes(amounts, num_recipients as int)
    } else {
        Seq::empty()
    }
}

proof fn lemma_slot_bytes_len(a: Seq<u64>, n: int)
    requires
        n >= 0,
    ensures
        slot_bytes(a, n).len() == 8 * n,
    decreases n,
{
    if n > 0 {
        lemma_slot_bytes_len(a, n - 1);
        lemma_u64_bytes(if n - 1 < a.len() { a[n - 1] } else { 0 });
    }
}

/// Encodes a Create instruction for a native-coin packet; the slot amounts
/// are written only for a random split.
pub fn build_create_data(
    id: u64,
    total_amount: u64,
    num_recipients: u8,
    split_mode: u8,
    expires_at: i64,
    rp_bump: u8,
    vault_bump: u8,
    amounts: Option<&[u64]>,
) -> (r: Vec<u8>)
    ensures
        r@ == create_payload(
            id,
            total_amount,
            num_recipients,
            split_mode,
            expires_at,
            rp_bump,
            vault_bump,
            match amounts {
                Some(a) => a@,
                None => Seq::empty(),
            },
        ),
{
    let ghost a = match amounts {
        Some(a) => a@,
        None => Seq::<u64>::empty(),
    };
    let mut data: Vec<u8> = vec![OP_CREATE, TOKEN_TYPE_SOL];
    let mut b = u64_to_le_bytes(id);
    data.append(&mut b);
    let mut b = u64_to_le_bytes(total_amount);
    data.append(&mut b);
    data.push(num_recipients);
    data.push(split_mode);
    let mut b = i64_le_bytes(expires_at);
    data.append(&mut b);
    data.push(rp_bump);
    data.push(vault_bump);
    let ghost head = data@;
    assert(head =~= seq![OP_CREATE, TOKEN_TYPE_SOL] + u64_bytes(id) + u64_bytes(total_amount) + seq![
        num_recipients,
        split_mode,
    ] + i64_bytes(expires_at) + seq![rp_bump, vault_bump]);
    if split_mode == SPLIT_RANDOM {
        let mut i: u8 = 0;
        while i < num_recipients
            invariant
                0 <= i <= num_recipients,
                a == match amounts {
                    Some(a) => a@,
                    None => Seq::<u64>::empty(),
                },
                data@ == head + slot_bytes(a, i as int),
            decreases num_recipients - i,
        {
            let value = match amounts {
                Some(s) => if (i as usize) < s.len() {
                    s[i as usize]
                } else {
                    0
                },
                None => 0,
            };
            let mut b = u64_to_le_bytes(value);
            data.append(&mut b);
            i += 1;
            assert(data@ =~= head + slot_bytes(a, i as int));
        }
    } else {
        assert(data@ =~= head + Seq::<u8>::empty());
    }
    data
}

/// Encodes a Claim instruction for a native-coin packet. The slot byte is
/// informational: the program pays the next free slot.
pub fn build_claim_data(slot_index: u8) -> (r: Vec<u8>)
    ensures
        r@ == seq![OP_CLAIM, TOKEN_TYPE_SOL, slot_index],
{
    let r = vec![OP_CLAIM, TOKEN_TYPE_SOL, slot_index];
    assert(r@ =~= seq![OP_CLAIM, TOKEN_TYPE_SOL, slot_index]);
    r
}

/// Encodes a Close instruction for a native-coin packet.
pub fn build_close_data() -> (r: Vec<u8>)
    ensures
        r@ == seq![OP_CLOSE, TOKEN_TYPE_SOL],
{
    let r = vec![OP_CLOSE, TOKEN_TYPE_SOL];
    assert(r@ =~= seq![OP_CLOSE, TOKEN_TYPE_SOL]);
    r
}

/// The program reads back from a Create payload exactly the parameters the
/// front-end encoded into it.
pub proof fn lemma_create_payload_read_back(
    id: u64,
    total_amount: u64,
    num_recipients: u8,
    split_mode: u8,
    expires_at: i64,
    rp_bump: u8,
    vault_bump: u8,
    amounts: Seq<u64>,
)
    ensures
        ({
            let d = create_payload(id, total_amount, num_recipients, split_mode, expires_at, rp_bump, vault_bump, amounts);
            let body = d.subrange(1, d.len() as int);
            &&& d[0] == OP_CREATE
            &&& body[0] == TOKEN_TYPE_SOL
            &&& body.len() >= 29
            &&& create_id(body) == id
            &&& create_total(body) == total_amount
            &&& create_n(body) == num_recipients
            &&& create_split(body) == split_mode
            &&& create_expiry(body) == expires_at
            &&& create_rp_bump(body) == rp_bump
            &&& create_vault_bump(body) == vault_bump
        }),
{
    let d = create_payload(id, total_amount, num_recipients, split_mode, expires_at, rp_bump, vault_bump, amounts);
    let body = d.subrange(1, d.len() as int);
    lemma_u64_bytes(id);
    lemma_u64_bytes(total_amount);
    lemma_u64_bytes(unsigned_of(expires_at));
    lemma_signed_round_trip(expires_at);
    lemma_slot_bytes_len(amounts, num_recipients as int);
    assert(body.subrange(1, 9) =~= u64_bytes(id));
    assert(body.subrange(9, 17) =~= u64_bytes(total_amount));
    assert(body.subrange(19, 27) =~= i64_bytes(expires_at));
}


// === Random split ===

/// The slot between cut `k - 1` and cut `k`: the difference of their floor
/// positions, at least one unit.
pub open spec fn cut_slot(f: Seq<u64>, k: int) -> int {
    let d = f[k] - if k == 0 {
        0
    } else {
        f[k - 1]
    };
    if d < 1 {
        1
    } else {
        d
    }
}

/// The last slot: what lies past the last cut (never below zero), then
/// adjusted so that all slots add up to `total` where it can be; where the
/// interior slots already exceed `total` it stays at zero.
pub open spec fn last_slot(total: u64, f: Seq<u64>, interior: int) -> int {
    let past = if f.len() == 0 {
        total as int
    } else if f[f.len() - 1] <= total {
        total - f[f.len() - 1]
    } else {
        0
    };
    let sum = interior + past;
    if sum <= total {
        past + (total - sum)
    } else if past >= sum - total {
        past - (sum - total)
    } else {
        0
    }
}

/// The cut positions are in order.
pub open spec fn cuts_sorted(f: Seq<u64>) -> bool {
    forall|i: int, j: int| 0 <= i <= j < f.len() ==> f[i] <= f[j]
}

/// Turns the floor positions of sorted cut points over `[0, total)` into
/// slot amounts: one slot per gap, each interior slot at least one unit,
/// the last slot absorbing the difference to `total`.
pub fn split_from_cuts(total_amount: u64, cut_floors: &[u64]) -> (r: Vec<u64>)
    requires
        cuts_sorted(cut_floors@),
    ensures
        r@.len() == cut_floors@.len() + 1,
        forall|k: int| 0 <= k < cut_floors@.len() ==> r@[k] == #[trigger] cut_slot(cut_floors@, k),
        r@[cut_floors@.len() as int] == last_slot(
            total_amount,
            cut_floors@,
            sum_prefix(r@, cut_floors@.len() as int),
        ),
        sum_prefix(r@, cut_floors@.len() as int) <= total_amount ==> sum_all(r@) == total_amount,
{
    let f = cut_floors;
    let mut amounts: Vec<u64> = Vec::new();
    let mut sum: u128 = 0;
    let mut prev: u64 = 0;
    let mut i: usize = 0;
    while i < f.len()
        invariant
            0 <= i <= f@.len(),
            cuts_sorted(f@),
            amounts@.len() == i,
            forall|k: int| 0 <= k < i ==> amounts@[k] == #[trigger] cut_slot(f@, k),
            prev == if i == 0 {
                0
            } else {
                f@[i - 1]
            },
            sum == sum_prefix(amounts@, i as int),
            sum <= prev + i,
        decreases f@.len() - i,
    {
        let d = f[i] - prev;
        let slot = if d < 1 {
            1
        } else {
            d
        };
        let ghost before = amounts@;
        amounts.push(slot);
        proof {
            crate::rules::lemma_sum_prefix_same(before, amounts@, i as int);
        }
        sum = sum + slot as u128;
        prev = f[i];
        i += 1;
    }
    let ghost interior = sum as int;
    let past = total_amount.saturating_sub(prev);
    let ghost before = amounts@;
    let sum = sum + past as u128;
    let last = if sum <= total_amount as u128 {
        past + (total_amount - sum as u64)
    } else {
        let over = sum - total_amount as u128;
        if past as u128 >= over {
            past - over as u64
        } else {
            0
        }
    };
    amounts.push(last);
    proof {
        let n = f@.len() as int;
        crate::rules::lemma_sum_prefix_same(before, amounts@, n);
        assert(sum_all(amounts@) == sum_prefix(amounts@, n) + last);
    }
    amounts
}

// === Derived addresses ===

/// Where a creator's packet with nonce `id` lives, and its bump.
pub fn find_red_packet_pda(creator: &Address, id: u64, program_id: &Address) -> (r: Option<(Address, u8)>)
    ensures
        match r {
            Some((a, bump)) => found_program_address(packet_seeds(creator@, id), program_id@) == Some((a@, bump)),
            None => found_program_address(packet_seeds(creator@, id), program_id@) is None,
        },
{
    find_program_address(&packet_seed_list(creator, id), program_id)
}

/// Where the vault of a creator's packet with nonce `id` lives, and its bump.
pub fn find_vault_pda(creator: &Address, id: u64, program_id: &Address) -> (r: Option<(Address, u8)>)
    ensures
        match r {
            Some((a, bump)) => found_program_address(vault_seeds(creator@, id), program_id@) == Some((a@, bump)),
            None => found_program_address(vault_seeds(creator@, id), program_id@) is None,
        },
{
    find_program_address(&vault_seed_list(creator, id), program_id)
}

/// Where the native coin's treasury lives, and its bump.
pub fn find_treasury_pda_sol(program_id: &Address) -> (r: Option<(Address, u8)>)
    ensures
        match r {
            Some((a, bump)) => found_program_address(treasury_seeds(native_mint_bytes()), program_id@) == Some((a@, bump)),
            None => found_program_address(treasury_seeds(native_mint_bytes()), program_id@) is None,
        },
{
    find_program_address(&treasury_seed_list(&native_sol_mint()), program_id)
}

// === Actions ===

/// Why the front-end refuses to build a transaction.
#[derive(Clone, Copy, Debug, PartialEq, Eq, Structural)]
pub enum ActionError {
    FullyClaimed,
    Expired,
    NotCreator,
    StillActive,
    InvalidRecipients,
    InvalidSplitMode,
    ExpiryOutOfRange,
}

impl ActionError {
    /// The text shown to the person asking.
    pub fn message(&self) -> &'static str {
        match self {
            ActionError::FullyClaimed => "Red packet is fully claimed",
            ActionError::Expired => "Red packet has expired",
            ActionError::NotCreator => "Only the red packet creator can close it",
            ActionError::StillActive => "Cannot close an active red packet",
            ActionError::InvalidRecipients => "Recipients must be 1-20",
            ActionError::InvalidSplitMode => "Split mode must be 0 (even) or 1 (random)",
            ActionError::ExpiryOutOfRange => "Expiry is out of range",
        }
    }
}

/// Claiming a packet.
pub struct ClaimAction;

/// Closing a packet.
pub struct CloseAction;

/// Creating a packet.
pub struct CreateAction;

impl ClaimAction {
    /// The route this action is served under.
    pub fn path(&self) -> (r: &'static str)
        ensures
            r@ == "claim"@,
    {
        "claim"
    }

    /// The Claim payload for a packet that can still be claimed, and the
    /// amount of the slot the claim will take (zero where the record holds
    /// no amount for it).
    pub fn prepare(&self, rp: &RedPacketAccount, now: i64) -> (r: Result<(Vec<u8>, u64), ActionError>)
        ensures
            status_of(rp@, now) is FullyClaimed ==> r == Err::<(Vec<u8>, u64), ActionError>(ActionError::FullyClaimed),
            status_of(rp@, now) is Expired ==> r == Err::<(Vec<u8>, u64), ActionError>(ActionError::Expired),
            status_of(rp@, now) is Active ==> r is Ok && r->Ok_0.0@ == seq![OP_CLAIM, TOKEN_TYPE_SOL, rp.num_claimed]
                && r->Ok_0.1 == if (rp.num_claimed as int) < rp.amounts@.len() {
                rp.amounts@[rp.num_claimed as int]
            } else {
                0
            },
    {
        if rp.num_claimed >= rp.num_recipients {
            return Err(ActionError::FullyClaimed);
        }
        if now >= rp.expires_at {
            return Err(ActionError::Expired);
        }
        let slot = rp.num_claimed;
        let amount = if (slot as usize) < rp.amounts.len() {
            rp.amounts[slot as usize]
        } else {
            0
        };
        Ok((build_claim_data(slot), amount))
    }
}

impl CloseAction {
    /// The route this action is served under.
    pub fn path(&self) -> (r: &'static str)
        ensures
            r@ == "close"@,
    {
        "close"
    }

    /// The Close payload, for the creator of a packet that is expired or
    /// fully claimed.
    pub fn prepare(&self, signer: &Address, creator: &Address, rp: &RedPacketAccount, now: i64) -> (r: Result<Vec<u8>, ActionError>)
        ensures
            signer@ != creator@ ==> r == Err::<Vec<u8>, ActionError>(ActionError::NotCreator),
            signer@ == creator@ && status_of(rp@, now) is Active ==> r == Err::<Vec<u8>, ActionError>(ActionError::StillActive),
            signer@ == creator@ && !(status_of(rp@, now) is Active) ==> r is Ok && r->Ok_0@ == seq![OP_CLOSE, TOKEN_TYPE_SOL],
    {
        if !signer.same_as(creator) {
            return Err(ActionError::NotCreator);
        }
        if rp.num_claimed < rp.num_recipients && now < rp.expires_at {
            return Err(ActionError::StillActive);
        }
        Ok(build_close_data())
    }
}

/// The deadline `hours` hours after `now`, where it fits.
pub open spec fn deadline(now: i64, hours: u64) -> int {
    now + hours * 3600
}

impl CreateAction {
    /// The route this action is served under.
    pub fn path(&self) -> (r: &'static str)
        ensures
            r@ == "create"@,
    {
        "create"
    }

    /// Checks a creation request and encodes its Create payload; returns the
    /// payload and the deadline.
    pub fn prepare(
        &self,
        total_lamports: u64,
        num_recipients: u8,
        split_mode: u8,
        expiry_hours: u64,
        now: i64,
        id: u64,
        rp_bump: u8,
        vault_bump: u8,
        amounts: Option<&[u64]>,
    ) -> (r: Result<(Vec<u8>, i64), ActionError>)
        ensures
            num_recipients < 1 || num_recipients > 20 ==> r == Err::<(Vec<u8>, i64), ActionError>(ActionError::InvalidRecipients),
            1 <= num_recipients <= 20 && split_mode > 1 ==> r == Err::<(Vec<u8>, i64), ActionError>(ActionError::InvalidSplitMode),
            1 <= num_recipients <= 20 && split_mode <= 1 && !(i64::MIN <= deadline(now, expiry_hours) <= i64::MAX)
                ==> r == Err::<(Vec<u8>, i64), ActionError>(ActionError::ExpiryOutOfRange),
            1 <= num_recipients <= 20 && split_mode <= 1 && i64::MIN <= deadline(now, expiry_hours) <= i64::MAX
                ==> r is Ok && r->Ok_0.1 == deadline(now, expiry_hours) && r->Ok_0.0@ == create_payload(
                id,
                total_lamports,
                num_recipients,
                split_mode,
                deadline(now, expiry_hours) as i64,
                rp_bump,
                vault_bump,
                match amounts {
                    Some(a) => a@,
                    None => Seq::empty(),
                },
            ),
    {
        if num_recipients < 1 || num_recipients > 20 {
            return Err(ActionError::InvalidRecipients);
        }
        if split_mode != 0 && split_mode != 1 {
            return Err(ActionError::InvalidSplitMode);
        }
        let wide: i128 = now as i128 + (expiry_hours as i128) * 3600;
        if wide > i64::MAX as i128 {
            return Err(ActionError::ExpiryOutOfRange);
        }
        let expires_at = wide as i64;
        let data = build_create_data(
            id,
            total_lamports,
            num_recipients,
            split_mode,
            expires_at,
            rp_bump,
            vault_bump,
            amounts,
        );
        Ok((data, expires_at))
    }
}

} // verus!
