//! The Create instruction: a creator deposits a sum split into slots, and
//! pays the fee into the treasury.
use crate::account::{
    effect_views, token_type_known, treasury_account_check, validate_token_type, validate_treasury,
    Account, AccountState, Effect, EffectView, states,
};
use crate::bytes::{i64_at, read_i64, read_u64, u64_at};
use crate::constants::{
    native_mint_bytes, native_sol_mint, packet_size, redpacket_size, rent_exempt, rent_floor,
    system_program_bytes, system_program_id, Config, MAX_RECIPIENTS, SPLIT_EVEN, SPLIT_RANDOM,
    TOKEN_ACCOUNT_SIZE, TOKEN_TYPE_SOL,
};
use crate::derive::{
    check_derived, derives, packet_seed_list, seed_views, packet_seeds, push_bump, vault_seed_list,
    vault_seeds, with_bump,
};
use crate::error::{ProgramError, RedPacketError};
use crate::rules::{
    balance_holds, check_random_amounts, checked_fee, claimers_distinct, even_amounts, even_split,
    fee_of, lemma_even_split_exact, random_check,
};
use crate::state::{
    get_sol_fees_collected, init_redpacket, packet_fits, packet_of,
    set_sol_fees_collected, treasury_of, PacketView, TreasuryView,
};
use vstd::prelude::*;

verus! {

/// Body layout after the asset kind byte: nonce(8) at 1, total(8) at 9,
/// recipients(1) at 17, split mode(1) at 18, deadline(8) at 19, record
/// bump(1) at 27, vault bump(1) at 28, slot amounts(8 x N) from 29.
pub const CREATE_BODY_LEN: usize = 29;

/// Positions in a create's account list: creator, (creator's token
/// account), record, vault, treasury, (treasury vault), (mint), (token
/// program), system program.
pub open spec fn create_index(sol: bool, role: int) -> int {
    if sol {
        seq![0int, -1, 1, 2, 3, -1, -1, -1, 4][role]
    } else {
        role
    }
}

pub open spec fn create_id(d: Seq<u8>) -> u64 { u64_at(d, 1) }
pub open spec fn create_total(d: Seq<u8>) -> u64 { u64_at(d, 9) }
pub open spec fn create_n(d: Seq<u8>) -> u8 { d[17] }
pub open spec fn create_split(d: Seq<u8>) -> u8 { d[18] }
pub open spec fn create_expiry(d: Seq<u8>) -> i64 { i64_at(d, 19) }
pub open spec fn create_rp_bump(d: Seq<u8>) -> u8 { d[27] }
pub open spec fn create_vault_bump(d: Seq<u8>) -> u8 { d[28] }

/// The slot amounts a create asks for: the even split, or those in the body.
pub open spec fn create_amounts(d: Seq<u8>) -> Seq<u64> {
    if create_split(d) == SPLIT_EVEN {
        even_amounts(create_total(d), create_n(d))
    } else {
        Seq::new(create_n(d) as nat, |i: int| u64_at(d, 29 + 8 * i))
    }
}

/// A fresh packet record: nothing claimed, every slot unset.
pub open spec fn new_packet(creator: Seq<u8>, d: Seq<u8>) -> PacketView {
    PacketView {
        creator,
        id: create_id(d),
        total_amount: create_total(d),
        remaining_amount: create_total(d),
        num_recipients: create_n(d),
        num_claimed: 0,
        split_mode: create_split(d),
        bump: create_rp_bump(d),
        vault_bump: create_vault_bump(d),
        token_type: d[0],
        expires_at: create_expiry(d),
        amounts: create_amounts(d),
        claimers: Seq::new(create_n(d) as nat, |i: int| Seq::new(32, |j: int| 0u8)),
    }
}

/// The first check that a create fails, if any, in the order the handler
/// makes them.
pub open spec fn create_error(cfg: Config, accts: Seq<AccountState>, d: Seq<u8>, now: i64) -> Option<ProgramError> {
    if d.len() == 0 {
        Some(ProgramError::InvalidInstructionData)
    } else if !token_type_known(d[0]) {
        Some(ProgramError::Custom(RedPacketError::InvalidTokenType))
    } else {
        let sol = d[0] == TOKEN_TYPE_SOL;
        let creator = accts[0];
        if accts.len() < (if sol { 5int } else { 9int }) {
            Some(ProgramError::Custom(RedPacketError::NotEnoughAccounts))
        } else if !creator.is_signer {
            Some(ProgramError::MissingRequiredSignature)
        } else if !sol && accts[7].address != cfg.token_program@ {
            Some(ProgramError::Custom(RedPacketError::InvalidTokenProgram))
        } else if accts[create_index(sol, 8)].address != system_program_bytes() {
            Some(ProgramError::Custom(RedPacketError::InvalidSystemProgram))
        } else if d.len() < 29 {
            Some(ProgramError::InvalidInstructionData)
        } else if create_total(d) == 0 {
            Some(ProgramError::Custom(RedPacketError::InvalidAmount))
        } else if create_n(d) == 0 || create_n(d) > MAX_RECIPIENTS {
            Some(ProgramError::Custom(RedPacketError::InvalidRecipientCount))
        } else if create_split(d) != SPLIT_EVEN && create_split(d) != SPLIT_RANDOM {
            Some(ProgramError::Custom(RedPacketError::InvalidSplitMode))
        } else if create_expiry(d) <= now {
            Some(ProgramError::Custom(RedPacketError::Expired))
        } else if !derives(
            with_bump(packet_seeds(creator.address, create_id(d)), create_rp_bump(d)),
            cfg.program_id@,
            accts[create_index(sol, 2)].address,
        ) {
            Some(ProgramError::Custom(RedPacketError::InvalidPDA))
        } else if !derives(
            with_bump(vault_seeds(creator.address, create_id(d)), create_vault_bump(d)),
            cfg.program_id@,
            accts[create_index(sol, 3)].address,
        ) {
            Some(ProgramError::Custom(RedPacketError::InvalidPDA))
        } else if treasury_account_check(accts[create_index(sol, 4)], cfg.program_id@) is Some {
            treasury_account_check(accts[create_index(sol, 4)], cfg.program_id@)
        } else if treasury_of(accts[create_index(sol, 4)].data).mint != (if sol {
            native_mint_bytes()
        } else {
            accts[6].address
        }) {
            Some(ProgramError::Custom(RedPacketError::InvalidMint))
        } else if create_split(d) == SPLIT_RANDOM && d.len() < 29 + 8 * create_n(d) {
            Some(ProgramError::InvalidInstructionData)
        } else if create_split(d) == SPLIT_RANDOM && random_check(create_total(d), create_amounts(d)) is Err {
            Some(random_check(create_total(d), create_amounts(d))->Err_0)
        } else if create_total(d) * 10 > u64::MAX {
            Some(ProgramError::ArithmeticOverflow)
        } else if sol && treasury_of(accts[3].data).fees_collected + fee_of(create_total(d)) > u64::MAX {
            Some(ProgramError::ArithmeticOverflow)
        } else {
            None
        }
    }
}

/// The effects of an accepted create: the record and the vault allocated at
/// their derived addresses, the deposit moved into the vault, the fee into
/// the treasury, and the fresh record written.
pub open spec fn create_effects(cfg: Config, accts: Seq<AccountState>, d: Seq<u8>, effects: Seq<EffectView>) -> bool {
    let sol = d[0] == TOKEN_TYPE_SOL;
    let creator = accts[0].address;
    let rp = create_index(sol, 2);
    let vault = create_index(sol, 3);
    let size = packet_size(create_n(d));
    let total = create_total(d);
    let fee = fee_of(total) as u64;
    let rp_signer = with_bump(packet_seeds(creator, create_id(d)), create_rp_bump(d));
    let vault_signer = with_bump(vault_seeds(creator, create_id(d)), create_vault_bump(d));
    let create_rp = EffectView::CreateAccount {
        from: 0,
        to: rp,
        lamports: rent_floor(size) as u64,
        space: size as u64,
        owner: cfg.program_id@,
        seeds: rp_signer,
    };
    &&& effects.len() == 6
    &&& effects[0] == create_rp
    &&& effects[5] is WriteData
    &&& effects[5]->WriteData_account == rp
    &&& effects[5]->WriteData_data.len() == size
    &&& effects[5]->WriteData_data[0] == 1
    &&& packet_fits(effects[5]->WriteData_data)
    &&& packet_of(effects[5]->WriteData_data) == new_packet(creator, d)
    &&& if sol {
        &&& effects[1] == EffectView::CreateAccount {
            from: 0,
            to: 2,
            lamports: rent_floor(0) as u64,
            space: 0,
            owner: cfg.program_id@,
            seeds: vault_signer,
        }
        &&& effects[2] == EffectView::SystemTransfer { from: 0, to: 2, amount: total }
        &&& effects[3] == EffectView::SystemTransfer { from: 0, to: 3, amount: fee }
        &&& effects[4] is WriteData
        &&& effects[4]->WriteData_account == 3
        &&& effects[4]->WriteData_data.len() == accts[3].data.len()
        &&& effects[4]->WriteData_data[0] == accts[3].data[0]
        &&& treasury_of(effects[4]->WriteData_data) == (TreasuryView {
            fees_collected: (treasury_of(accts[3].data).fees_collected + fee) as u64,
            ..treasury_of(accts[3].data)
        })
    } else {
        &&& effects[1] == EffectView::CreateAccount {
            from: 0,
            to: 3,
            lamports: rent_floor(165) as u64,
            space: 165,
            owner: cfg.token_program@,
            seeds: vault_signer,
        }
        &&& effects[2] == EffectView::InitializeTokenAccount { account: 3, mint: 6, owner: accts[2].address }
        &&& effects[3] == EffectView::TokenTransfer { from: 1, to: 3, authority: 0, amount: total, seeds: Seq::empty() }
        &&& effects[4] == EffectView::TokenTransfer { from: 1, to: 5, authority: 0, amount: fee, seeds: Seq::empty() }
    }
}

/// A packet as Create writes it is at rest: its slots add up to the
/// deposit, all of it remains, and no slot is claimed.
pub proof fn lemma_created_packet_at_rest(creator: Seq<u8>, d: Seq<u8>)
    requires
        d.len() >= 29,
        0 < create_n(d),
        create_split(d) == SPLIT_EVEN || random_check(create_total(d), create_amounts(d)) is Ok,
    ensures
        balance_holds(new_packet(creator, d)),
        claimers_distinct(new_packet(creator, d)),
{
    if create_split(d) == SPLIT_EVEN {
        lemma_even_split_exact(create_total(d), create_n(d));
    }
}

/// The record that an accepted Create writes is at rest.
pub proof fn lemma_create_handler_writes_record_at_rest(
    cfg: Config,
    accts: Seq<AccountState>,
    d: Seq<u8>,
    now: i64,
    effects: Seq<EffectView>,
)
    requires
        create_error(cfg, accts, d, now) is None,
        create_effects(cfg, accts, d, effects),
    ensures
        balance_holds(packet_of(effects[5]->WriteData_data)),
        claimers_distinct(packet_of(effects[5]->WriteData_data)),
{
    lemma_created_packet_at_rest(accts[0].address, d);
}

fn read_amounts(data: &[u8], n: u8) -> (r: Vec<u64>)
    requires
        data.len() >= 29 + 8 * n,
    ensures
        r@ == Seq::new(n as nat, |i: int| u64_at(data@, 29 + 8 * i)),
{
    let mut r: Vec<u64> = Vec::new();
    let mut i: u8 = 0;
    while i < n
        invariant
            0 <= i <= n,
            data.len() >= 29 + 8 * n,
            r@ == Seq::new(i as nat, |k: int| u64_at(data@, 29 + 8 * k)),
        decreases n - i,
    {
        r.push(read_u64(data, 29 + 8 * (i as usize)));
        i += 1;
        assert(r@ =~= Seq::new(i as nat, |k: int| u64_at(data@, 29 + 8 * k)));
    }
    r
}

/// Handles Create: checks the creator, the parameters, the derived
/// addresses and the treasury, computes the slot amounts and the fee, and
/// asks for the accounts, the transfers and the fresh record.
pub fn process_create(cfg: &Config, accounts: &Vec<Account>, data: &[u8], now: i64) -> (r: Result<Vec<Effect>, ProgramError>)
    ensures
        match r {
            Ok(effects) => {
                &&& create_error(*cfg, states(accounts@), data@, now) is None
                &&& create_effects(*cfg, states(accounts@), data@, effect_views(effects@))
            },
            Err(e) => create_error(*cfg, states(accounts@), data@, now) == Some(e),
        },
{
    let ghost accts = states(accounts@);
    if data.len() == 0 {
        return Err(ProgramError::InvalidInstructionData);
    }
    let token_type = data[0];
    validate_token_type(token_type)?;
    let is_sol = token_type == TOKEN_TYPE_SOL;
    let min_accounts: usize = if is_sol { 5 } else { 9 };
    if accounts.len() < min_accounts {
        return Err(ProgramError::Custom(RedPacketError::NotEnoughAccounts));
    }
    let rp_index: usize = if is_sol { 1 } else { 2 };
    let vault_index: usize = if is_sol { 2 } else { 3 };
    let treasury_index: usize = if is_sol { 3 } else { 4 };
    let system_index: usize = if is_sol { 4 } else { 8 };
    assert(rp_index == create_index(is_sol, 2));
    assert(vault_index == create_index(is_sol, 3));
    assert(treasury_index == create_index(is_sol, 4));
    assert(system_index == create_index(is_sol, 8));
    assert(forall|i: int| 0 <= i < accounts@.len() ==> #[trigger] accts[i] == accounts@[i]@);
    let creator = &accounts[0];
    if !creator.is_signer {
        return Err(ProgramError::MissingRequiredSignature);
    }
    if !is_sol && !accounts[7].address.same_as(&cfg.token_program) {
        return Err(ProgramError::Custom(RedPacketError::InvalidTokenProgram));
    }
    if !accounts[system_index].address.same_as(&system_program_id()) {
        return Err(ProgramError::Custom(RedPacketError::InvalidSystemProgram));
    }
    if data.len() < CREATE_BODY_LEN {
        return Err(ProgramError::InvalidInstructionData);
    }
    let id = read_u64(data, 1);
    let total_amount = read_u64(data, 9);
    let num_recipients = data[17];
    let split_mode = data[18];
    let expires_at = read_i64(data, 19);
    let rp_bump = data[27];
    let vault_bump = data[28];
    if total_amount == 0 {
        return Err(ProgramError::Custom(RedPacketError::InvalidAmount));
    }
    if num_recipients == 0 || num_recipients > MAX_RECIPIENTS {
        return Err(ProgramError::Custom(RedPacketError::InvalidRecipientCount));
    }
    if split_mode != SPLIT_EVEN && split_mode != SPLIT_RANDOM {
        return Err(ProgramError::Custom(RedPacketError::InvalidSplitMode));
    }
    if expires_at <= now {
        return Err(ProgramError::Custom(RedPacketError::Expired));
    }
    let mut rp_seeds = packet_seed_list(&creator.address, id);
    push_bump(&mut rp_seeds, rp_bump);
    check_derived(&rp_seeds, &cfg.program_id, &accounts[rp_index].address)?;
    let mut vault_seeds = vault_seed_list(&creator.address, id);
    push_bump(&mut vault_seeds, vault_bump);
    check_derived(&vault_seeds, &cfg.program_id, &accounts[vault_index].address)?;
    let treasury = &accounts[treasury_index];
    validate_treasury(treasury, &cfg.program_id)?;
    let accepted = if is_sol {
        native_sol_mint()
    } else {
        accounts[6].address
    };
    if !accepted.matches_at(treasury.data.as_slice(), 3) {
        return Err(ProgramError::Custom(RedPacketError::InvalidMint));
    }
    assert(treasury.data@.subrange(3, 35) == treasury_of(treasury.data@).mint);
    let amounts = if split_mode == SPLIT_EVEN {
        even_split(total_amount, num_recipients)
    } else {
        if data.len() < CREATE_BODY_LEN + 8 * (num_recipients as usize) {
            return Err(ProgramError::InvalidInstructionData);
        }
        let amounts = read_amounts(data, num_recipients);
        check_random_amounts(total_amount, amounts.as_slice())?;
        amounts
    };
    assert(amounts@ == create_amounts(data@));
    let fee = checked_fee(total_amount)?;
    let size = redpacket_size(num_recipients);
    let mut effects: Vec<Effect> = Vec::new();
    effects.push(Effect::CreateAccount {
        from: 0,
        to: rp_index,
        lamports: rent_exempt(size),
        space: size as u64,
        owner: cfg.program_id,
        seeds: rp_seeds,
    });
    if is_sol {
        let fees = get_sol_fees_collected(treasury.data.as_slice());
        if fees > u64::MAX - fee {
            return Err(ProgramError::ArithmeticOverflow);
        }
        let mut tdata = treasury.data.clone();
        set_sol_fees_collected(tdata.as_mut_slice(), fees + fee);
        effects.push(Effect::CreateAccount {
            from: 0,
            to: 2,
            lamports: rent_exempt(0),
            space: 0,
            owner: cfg.program_id,
            seeds: vault_seeds,
        });
        effects.push(Effect::SystemTransfer { from: 0, to: 2, amount: total_amount });
        effects.push(Effect::SystemTransfer { from: 0, to: 3, amount: fee });
        effects.push(Effect::WriteData { account: 3, data: tdata });
    } else {
        effects.push(Effect::CreateAccount {
            from: 0,
            to: 3,
            lamports: rent_exempt(TOKEN_ACCOUNT_SIZE),
            space: TOKEN_ACCOUNT_SIZE as u64,
            owner: cfg.token_program,
            seeds: vault_seeds,
        });
        effects.push(Effect::InitializeTokenAccount { account: 3, mint: 6, owner: accounts[2].address });
        let no_seeds: Vec<Vec<u8>> = Vec::new();
        assert(seed_views(no_seeds@) =~= Seq::<Seq<u8>>::empty());
        effects.push(Effect::TokenTransfer { from: 1, to: 3, authority: 0, amount: total_amount, seeds: no_seeds });
        let no_seeds: Vec<Vec<u8>> = Vec::new();
        assert(seed_views(no_seeds@) =~= Seq::<Seq<u8>>::empty());
        effects.push(Effect::TokenTransfer { from: 1, to: 5, authority: 0, amount: fee, seeds: no_seeds });
    }
    let mut record: Vec<u8> = vec![0u8; size];
    let ghost zeros = record@;
    let creator_key = creator.address.to_vec();
    init_redpacket(
        record.as_mut_slice(),
        creator_key.as_slice(),
        id,
        total_amount,
        num_recipients,
        split_mode,
        rp_bump,
        vault_bump,
        token_type,
        expires_at,
        amounts.as_slice(),
    );
    proof {
        let n = num_recipients as int;
        let p = packet_of(record@);
        assert forall|i: int| 0 <= i < n implies #[trigger] p.claimers[i] == Seq::new(32, |j: int| 0u8) by {
            assert(zeros.subrange(71 + 8 * n + 32 * i, 71 + 8 * n + 32 * i + 32) =~= Seq::new(32, |j: int| 0u8));
        }
        assert(p.claimers =~= new_packet(creator.address@, data@).claimers);
        assert(p =~= new_packet(creator.address@, data@));
    }
    effects.push(Effect::WriteData { account: rp_index, data: record });
    Ok(effects)
}

} // verus!
