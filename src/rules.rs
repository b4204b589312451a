//! The value rules of a packet: how a deposit is split into slots, what fee
//! it pays, when a slot may be claimed, when a packet may be closed, and how
//! much the treasury may pay out.
use crate::error::{ProgramError, RedPacketError};
use crate::state::{
    get_amount_at, get_expires_at, get_num_claimed, get_num_recipients, get_remaining_amount,
    has_claimed, packet_fits, packet_of, set_claimer_at, set_num_claimed, set_remaining_amount,
    PacketView,
};
use vstd::prelude::*;

verus! {

/// `a[0] + ... + a[k - 1]`.
pub open spec fn sum_prefix(a: Seq<u64>, k: int) -> int
    decreases k,
{
    if k <= 0 || a.len() < k {
        0
    } else {
        sum_prefix(a, k - 1) + a[k - 1]
    }
}

/// The sum of all of `a`.
pub open spec fn sum_all(a: Seq<u64>) -> int {
    sum_prefix(a, a.len() as int)
}

pub proof fn lemma_sum_prefix_monotone(a: Seq<u64>, j: int, k: int)
    requires
        0 <= j <= k <= a.len(),
    ensures
        sum_prefix(a, j) <= sum_prefix(a, k),
    decreases k - j,
{
    if j < k {
        lemma_sum_prefix_monotone(a, j, k - 1);
    }
}

pub proof fn lemma_sum_prefix_nonneg(a: Seq<u64>, k: int)
    ensures
        sum_prefix(a, k) >= 0,
    decreases k,
{
    if k > 0 && a.len() >= k {
        lemma_sum_prefix_nonneg(a, k - 1);
    }
}

/// Prefix sums depend only on the prefix.
pub proof fn lemma_sum_prefix_same(a: Seq<u64>, b: Seq<u64>, k: int)
    requires
        0 <= k <= a.len(),
        k <= b.len(),
        forall|i: int| 0 <= i < k ==> a[i] == b[i],
    ensures
        sum_prefix(a, k) == sum_prefix(b, k),
    decreases k,
{
    if k > 0 {
        lemma_sum_prefix_same(a, b, k - 1);
    }
}

// === Split ===

/// Even split: every slot gets `total / n`, the last also the remainder.
pub open spec fn even_amounts(total: u64, n: u8) -> Seq<u64> {
    Seq::new(
        n as nat,
        |i: int|
            if i == n - 1 {
                (total / n as u64 + total % n as u64) as u64
            } else {
                total / n as u64
            },
    )
}

proof fn lemma_even_prefix(total: u64, n: u8, k: int)
    requires
        0 < n,
        0 <= k < n,
    ensures
        sum_prefix(even_amounts(total, n), k) == k * (total / n as u64),
    decreases k,
{
    if k > 0 {
        lemma_even_prefix(total, n, k - 1);
        assert(even_amounts(total, n)[k - 1] == total / n as u64);
        assert(sum_prefix(even_amounts(total, n), k) == (k - 1) * (total / n as u64) + total / n as u64);
        assert((k - 1) * (total / n as u64) + total / n as u64 == k * (total / n as u64)) by (nonlinear_arith);
    } else {
        assert(0 * (total / n as u64) == 0) by (nonlinear_arith);
    }
}

/// The slots of an even split add up to the deposit.
pub proof fn lemma_even_split_exact(total: u64, n: u8)
    requires
        0 < n,
    ensures
        sum_all(even_amounts(total, n)) == total,
{
    let a = even_amounts(total, n);
    lemma_even_prefix(total, n, n - 1);
    let q = total / n as u64;
    let r = total % n as u64;
    assert(q + r <= total) by (nonlinear_arith)
        requires
            0 < n,
            q == total / n as u64,
            r == total % n as u64,
    ;
    assert(a[n - 1] == q + r);
    assert(sum_all(a) == (n - 1) * q + q + r);
    assert(total == n * q + r) by (nonlinear_arith)
        requires
            0 < n,
            q == total / n as u64,
            r == total % n as u64,
    ;
    assert((n - 1) * q + q + r == n * q + r) by (nonlinear_arith);
}

/// The per-slot amounts of an even split of `total_amount` over
/// `num_recipients` slots.
pub fn even_split(total_amount: u64, num_recipients: u8) -> (r: Vec<u64>)
    requires
        0 < num_recipients,
    ensures
        r@ == even_amounts(total_amount, num_recipients),
        sum_all(r@) == total_amount,
{
    let n = num_recipients as u64;
    let per_person = total_amount / n;
    let remainder = total_amount % n;
    proof {
        assert(per_person + remainder <= total_amount) by (nonlinear_arith)
            requires
                0 < n,
                per_person == total_amount / n,
                remainder == total_amount % n,
        ;
    }
    let mut amounts: Vec<u64> = Vec::new();
    let mut i: u8 = 0;
    while i < num_recipients
        invariant
            0 <= i <= num_recipients,
            n == num_recipients,
            per_person == total_amount / n,
            remainder == total_amount % n,
            per_person + remainder <= total_amount,
            amounts@ == even_amounts(total_amount, num_recipients).subrange(0, i as int),
        decreases num_recipients - i,
    {
        if i == num_recipients - 1 {
            amounts.push(per_person + remainder);
        } else {
            amounts.push(per_person);
        }
        i += 1;
        assert(amounts@ =~= even_amounts(total_amount, num_recipients).subrange(0, i as int));
    }
    assert(amounts@ =~= even_amounts(total_amount, num_recipients));
    proof {
        lemma_even_split_exact(total_amount, num_recipients);
    }
    amounts
}

/// The first failure that scanning caller-supplied slot amounts from index
/// `i` meets: a zero amount, or a running sum past `u64::MAX`.
pub open spec fn scan_amounts(a: Seq<u64>, i: int) -> Option<ProgramError>
    decreases a.len() - i,
{
    if i < 0 || i >= a.len() {
        None
    } else if a[i] == 0 {
        Some(ProgramError::Custom(RedPacketError::InvalidAmount))
    } else if sum_prefix(a, i + 1) > u64::MAX {
        Some(ProgramError::ArithmeticOverflow)
    } else {
        scan_amounts(a, i + 1)
    }
}

/// What checking caller-supplied slot amounts against the deposit gives.
pub open spec fn random_check(total: u64, a: Seq<u64>) -> Result<(), ProgramError> {
    match scan_amounts(a, 0) {
        Some(e) => Err(e),
        None => if sum_all(a) == total {
            Ok(())
        } else {
            Err(ProgramError::Custom(RedPacketError::AmountMismatch))
        },
    }
}

/// Slot `j` is nonzero and the running sum through it fits in 64 bits.
pub open spec fn slot_passes(a: Seq<u64>, j: int) -> bool {
    a[j] != 0 && sum_prefix(a, j + 1) <= u64::MAX
}

proof fn lemma_scan_prefix(a: Seq<u64>, i: int)
    requires
        0 <= i <= a.len(),
        forall|j: int| 0 <= j < i ==> #[trigger] slot_passes(a, j),
    ensures
        scan_amounts(a, 0) == scan_amounts(a, i),
    decreases i,
{
    if i > 0 {
        lemma_scan_prefix(a, i - 1);
        assert(slot_passes(a, i - 1));
        assert(scan_amounts(a, i - 1) == scan_amounts(a, i));
    }
}

/// Checks caller-supplied slot amounts: each nonzero, and together exactly
/// the deposit.
pub fn check_random_amounts(total_amount: u64, amounts: &[u64]) -> (r: Result<(), ProgramError>)
    ensures
        r == random_check(total_amount, amounts@),
{
    let mut sum: u64 = 0;
    let mut i: usize = 0;
    while i < amounts.len()
        invariant
            0 <= i <= amounts@.len(),
            sum == sum_prefix(amounts@, i as int),
            forall|j: int| 0 <= j < i ==> #[trigger] slot_passes(amounts@, j),
        decreases amounts@.len() - i,
    {
        let amount = amounts[i];
        proof {
            lemma_scan_prefix(amounts@, i as int);
        }
        if amount == 0 {
            return Err(ProgramError::Custom(RedPacketError::InvalidAmount));
        }
        assert(sum_prefix(amounts@, i + 1) == sum + amount);
        match sum.checked_add(amount) {
            Some(s) => {
                sum = s;
            },
            None => {
                return Err(ProgramError::ArithmeticOverflow);
            },
        }
        assert(slot_passes(amounts@, i as int));
        i += 1;
    }
    proof {
        lemma_scan_prefix(amounts@, i as int);
    }
    if sum != total_amount {
        return Err(ProgramError::Custom(RedPacketError::AmountMismatch));
    }
    Ok(())
}

// === Fee ===

/// The fee on a deposit: 10 basis points, at least one unit.
pub open spec fn fee_of(total: u64) -> int {
    let f = total * 10 / 10_000;
    if f > 0 {
        f
    } else {
        1
    }
}

/// The fee on a deposit, failing with an overflow where `total * 10` does
/// not fit in 64 bits.
pub fn checked_fee(total_amount: u64) -> (r: Result<u64, ProgramError>)
    ensures
        total_amount * 10 > u64::MAX ==> r == Err::<u64, ProgramError>(ProgramError::ArithmeticOverflow),
        total_amount * 10 <= u64::MAX ==> r == Ok::<u64, ProgramError>(fee_of(total_amount) as u64),
{
    match total_amount.checked_mul(10) {
        Some(scaled) => {
            let f = scaled / 10_000;
            if f > 0 {
                Ok(f)
            } else {
                Ok(1)
            }
        },
        None => Err(ProgramError::ArithmeticOverflow),
    }
}

// === Claim ===

/// Whether `claimer` already fills one of the claimed slots of `v`.
pub open spec fn claimed_by(v: PacketView, claimer: Seq<u8>) -> bool {
    exists|i: int| 0 <= i < v.num_claimed && #[trigger] v.claimers[i] == claimer
}

/// `v` after `claimer` takes the next slot.
pub open spec fn after_claim(v: PacketView, claimer: Seq<u8>) -> PacketView {
    PacketView {
        num_claimed: (v.num_claimed + 1) as u8,
        remaining_amount: (v.remaining_amount - v.amounts[v.num_claimed as int]) as u64,
        claimers: v.claimers.update(v.num_claimed as int, claimer),
        ..v
    }
}

/// What a claim by `claimer` at time `now` does to the record `v`: the
/// checks in order, then the updated record.
pub open spec fn claim_outcome(v: PacketView, claimer: Seq<u8>, now: i64) -> Result<PacketView, ProgramError> {
    if now >= v.expires_at {
        Err(ProgramError::Custom(RedPacketError::Expired))
    } else if v.num_claimed >= v.num_recipients {
        Err(ProgramError::Custom(RedPacketError::RedPacketFull))
    } else if claimed_by(v, claimer) {
        Err(ProgramError::Custom(RedPacketError::AlreadyClaimed))
    } else if v.remaining_amount < v.amounts[v.num_claimed as int] {
        Err(ProgramError::ArithmeticOverflow)
    } else {
        Ok(after_claim(v, claimer))
    }
}

/// Applies a claim to the record bytes; on success returns the slot's
/// payout, on failure leaves the bytes as they were.
pub fn claim_slot(data: &mut [u8], claimer: &[u8], now: i64) -> (r: Result<u64, ProgramError>)
    requires
        packet_fits(old(data)@),
        claimer@.len() == 32,
    ensures
        final(data)@.len() == old(data)@.len(),
        final(data)@[0] == old(data)@[0],
        packet_fits(final(data)@),
        match r {
            Ok(amount) => {
                &&& claim_outcome(packet_of(old(data)@), claimer@, now) == Ok::<PacketView, ProgramError>(
                    packet_of(final(data)@),
                )
                &&& amount == packet_of(old(data)@).amounts[packet_of(old(data)@).num_claimed as int]
            },
            Err(e) => {
                &&& claim_outcome(packet_of(old(data)@), claimer@, now) == Err::<PacketView, ProgramError>(e)
                &&& final(data)@ == old(data)@
            },
        },
{
    let num_recipients = get_num_recipients(data);
    let num_claimed = get_num_claimed(data);
    let expires_at = get_expires_at(data);
    if now >= expires_at {
        return Err(ProgramError::Custom(RedPacketError::Expired));
    }
    if num_claimed >= num_recipients {
        return Err(ProgramError::Custom(RedPacketError::RedPacketFull));
    }
    if has_claimed(data, num_recipients, num_claimed, claimer) {
        return Err(ProgramError::Custom(RedPacketError::AlreadyClaimed));
    }
    let amount = get_amount_at(data, num_claimed);
    let remaining = get_remaining_amount(data);
    if remaining < amount {
        return Err(ProgramError::ArithmeticOverflow);
    }
    let ghost v = packet_of(data@);
    set_claimer_at(data, num_recipients, num_claimed, claimer);
    set_num_claimed(data, num_claimed + 1);
    set_remaining_amount(data, remaining - amount);
    assert(packet_of(data@) =~= after_claim(v, claimer@));
    Ok(amount)
}

/// The balance of a record at rest: no more claims than slots, the slots add
/// up to the deposit, and what remains is the deposit less the claimed slots.
pub open spec fn balance_holds(v: PacketView) -> bool {
    &&& v.amounts.len() == v.num_recipients
    &&& v.num_claimed <= v.num_recipients
    &&& sum_all(v.amounts) == v.total_amount
    &&& v.remaining_amount == v.total_amount - sum_prefix(v.amounts, v.num_claimed as int)
}

/// No identity fills two of the claimed slots.
pub open spec fn claimers_distinct(v: PacketView) -> bool {
    forall|i: int, j: int|
        0 <= i < j < v.num_claimed ==> #[trigger] v.claimers[i] != #[trigger] v.claimers[j]
}

/// A successful claim keeps the balance of the record: the remaining amount
/// is still the deposit less the claimed slots, and the claims stay within
/// the slots. On such a record a claim never fails for arithmetic.
pub proof fn lemma_claim_keeps_balance(v: PacketView, claimer: Seq<u8>, now: i64)
    requires
        balance_holds(v),
    ensures
        claim_outcome(v, claimer, now) != Err::<PacketView, ProgramError>(ProgramError::ArithmeticOverflow),
        claim_outcome(v, claimer, now) is Ok ==> balance_holds(claim_outcome(v, claimer, now)->Ok_0),
{
    if now < v.expires_at && v.num_claimed < v.num_recipients {
        let k = v.num_claimed as int;
        lemma_sum_prefix_monotone(v.amounts, k + 1, v.amounts.len() as int);
        assert(sum_prefix(v.amounts, k + 1) == sum_prefix(v.amounts, k) + v.amounts[k]);
    }
}

/// A successful claim keeps the claimed slots free of repeats.
pub proof fn lemma_claim_keeps_claimers_distinct(v: PacketView, claimer: Seq<u8>, now: i64)
    requires
        claimers_distinct(v),
        v.claimers.len() == v.num_recipients,
        claim_outcome(v, claimer, now) is Ok,
    ensures
        claimers_distinct(claim_outcome(v, claimer, now)->Ok_0),
{
    let w = claim_outcome(v, claimer, now)->Ok_0;
    let k = v.num_claimed as int;
    assert forall|i: int, j: int| 0 <= i < j < w.num_claimed implies #[trigger] w.claimers[i]
        != #[trigger] w.claimers[j] by {
        if j == k {
            assert(w.claimers[i] == v.claimers[i]);
            assert(v.claimers[i] != claimer);
        } else {
            assert(w.claimers[i] == v.claimers[i]);
            assert(w.claimers[j] == v.claimers[j]);
        }
    }
}

/// Claiming twice with one identity: the first claim pays one slot and
/// lowers the remaining amount by it; the second, on the record that the
/// first left (while it is neither expired nor full), fails with
/// `AlreadyClaimed`.
pub proof fn lemma_claim_twice(v: PacketView, claimer: Seq<u8>, first: i64, second: i64)
    requires
        v.claimers.len() == v.num_recipients,
        claim_outcome(v, claimer, first) is Ok,
        second < claim_outcome(v, claimer, first)->Ok_0.expires_at,
        claim_outcome(v, claimer, first)->Ok_0.num_claimed < v.num_recipients,
    ensures
        claim_outcome(v, claimer, first)->Ok_0.remaining_amount == v.remaining_amount
            - v.amounts[v.num_claimed as int],
        claim_outcome(claim_outcome(v, claimer, first)->Ok_0, claimer, second) == Err::<
            PacketView,
            ProgramError,
        >(ProgramError::Custom(RedPacketError::AlreadyClaimed)),
{
    let w = claim_outcome(v, claimer, first)->Ok_0;
    assert(w.claimers[v.num_claimed as int] == claimer);
    assert(claimed_by(w, claimer));
}

// === Close ===

/// A packet may be closed once every slot is claimed or its deadline passed.
pub open spec fn closable(v: PacketView, now: i64) -> bool {
    v.num_claimed >= v.num_recipients || now >= v.expires_at
}

// === Treasury ===

/// What the native treasury may pay out: the collected fees, but never below
/// the storage floor.
pub open spec fn native_available(fees: u64, lamports: u64, floor: u64) -> int {
    let above = if lamports >= floor {
        lamports - floor
    } else {
        0
    };
    if fees <= above {
        fees as int
    } else {
        above
    }
}

pub fn native_withdrawable(fees: u64, lamports: u64, floor: u64) -> (r: u64)
    ensures
        r == native_available(fees, lamports, floor),
{
    let above = lamports.saturating_sub(floor);
    if fees <= above {
        fees
    } else {
        above
    }
}

/// The amount a withdrawal of `requested` (zero meaning all) takes out of
/// `available`.
pub open spec fn withdrawal(requested: u64, available: u64) -> Result<u64, ProgramError> {
    let w = if requested == 0 {
        available
    } else {
        requested
    };
    if w == 0 || w > available {
        Err(ProgramError::Custom(RedPacketError::InsufficientTreasuryBalance))
    } else {
        Ok(w)
    }
}

pub fn withdraw_amount(requested: u64, available: u64) -> (r: Result<u64, ProgramError>)
    ensures
        r == withdrawal(requested, available),
{
    let w = if requested == 0 {
        available
    } else {
        requested
    };
    if w == 0 {
        return Err(ProgramError::Custom(RedPacketError::InsufficientTreasuryBalance));
    }
    if w > available {
        return Err(ProgramError::Custom(RedPacketError::InsufficientTreasuryBalance));
    }
    Ok(w)
}

} // verus!
