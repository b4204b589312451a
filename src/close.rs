//! The Close instruction: the creator reclaims an expired or fully claimed
//! packet, and its record is wiped.
use crate::account::{
    effect_views, packet_account_check, token_type_known, validate_redpacket, validate_token_type,
    Account, AccountState, Effect, EffectView, states,
};
use crate::address::Address;
use crate::claim::{claim_record_index, claim_vault_index};
use crate::constants::{Config, TOKEN_TYPE_SOL};
use crate::derive::{
    check_derived, derives, packet_seed_list, packet_seeds, push_bump, vault_seed_list,
    vault_seeds, with_bump,
};
use crate::error::{ProgramError, RedPacketError};
use crate::rules::closable;
use crate::state::packet_of;
use vstd::prelude::*;

verus! {

/// The first check that a close fails, if any, in the order the handler
/// makes them. The account list is laid out as for a claim.
pub open spec fn close_error(cfg: Config, accts: Seq<AccountState>, data: Seq<u8>, now: i64) -> Option<ProgramError> {
    if data.len() == 0 {
        Some(ProgramError::InvalidInstructionData)
    } else if !token_type_known(data[0]) {
        Some(ProgramError::Custom(RedPacketError::InvalidTokenType))
    } else {
        let sol = data[0] == TOKEN_TYPE_SOL;
        let rp = claim_record_index(sol);
        let vault = claim_vault_index(sol);
        if accts.len() < (if sol { 3int } else { 5int }) {
            Some(ProgramError::Custom(RedPacketError::NotEnoughAccounts))
        } else if !sol && accts[4].address != cfg.token_program@ {
            Some(ProgramError::Custom(RedPacketError::InvalidTokenProgram))
        } else if !accts[0].is_signer {
            Some(ProgramError::MissingRequiredSignature)
        } else if packet_account_check(accts[rp], cfg.program_id@) is Some {
            packet_account_check(accts[rp], cfg.program_id@)
        } else {
            let v = packet_of(accts[rp].data);
            if v.token_type != data[0] {
                Some(ProgramError::Custom(RedPacketError::InvalidTokenType))
            } else if v.creator != accts[0].address {
                Some(ProgramError::Custom(RedPacketError::Unauthorized))
            } else if !derives(
                with_bump(vault_seeds(v.creator, v.id), v.vault_bump),
                cfg.program_id@,
                accts[vault].address,
            ) {
                Some(ProgramError::Custom(RedPacketError::InvalidPDA))
            } else if !closable(v, now) {
                Some(ProgramError::Custom(RedPacketError::NotExpiredOrFull))
            } else if sol && accts[vault].owner != cfg.program_id@ {
                Some(ProgramError::Custom(RedPacketError::InvalidAccountOwner))
            } else if sol && accts[0].lamports + accts[vault].lamports + accts[rp].lamports > u64::MAX {
                Some(ProgramError::ArithmeticOverflow)
            } else if !sol && accts[0].lamports + accts[rp].lamports > u64::MAX {
                Some(ProgramError::ArithmeticOverflow)
            } else {
                None
            }
        }
    }
}

/// The effects of an accepted close: the vault emptied to the creator (the
/// native balance, or the remaining tokens and then the token account
/// itself), the record's own balance drained to the creator, and the
/// record's bytes zeroed.
pub open spec fn close_effects(cfg: Config, accts: Seq<AccountState>, data: Seq<u8>, effects: Seq<EffectView>) -> bool {
    let sol = data[0] == TOKEN_TYPE_SOL;
    let rp = claim_record_index(sol);
    effects == close_vault_out(accts, data) + seq![
        EffectView::MoveLamports { from: rp, to: 0, amount: accts[rp].lamports },
        EffectView::WriteData { account: rp, data: Seq::new(accts[rp].data.len(), |i: int| 0u8) },
    ]
}

/// How a close empties the vault.
pub open spec fn close_vault_out(accts: Seq<AccountState>, data: Seq<u8>) -> Seq<EffectView> {
    let sol = data[0] == TOKEN_TYPE_SOL;
    let rp = claim_record_index(sol);
    let vault = claim_vault_index(sol);
    let v = packet_of(accts[rp].data);
    let signer = with_bump(packet_seeds(v.creator, v.id), v.bump);
    if sol {
        if accts[vault].lamports > 0 {
            seq![EffectView::MoveLamports { from: vault, to: 0, amount: accts[vault].lamports }]
        } else {
            Seq::empty()
        }
    } else {
        let close = EffectView::CloseTokenAccount { account: vault, destination: 0, authority: rp, seeds: signer };
        if v.remaining_amount > 0 {
            seq![
                EffectView::TokenTransfer {
                    from: vault,
                    to: 1,
                    authority: rp,
                    amount: v.remaining_amount,
                    seeds: signer,
                },
                close,
            ]
        } else {
            seq![close]
        }
    }
}

/// Handles Close: checks that the signer created the packet and that it is
/// expired or full, then returns everything it holds to the creator and
/// wipes the record.
pub fn process_close(cfg: &Config, accounts: &Vec<Account>, data: &[u8], now: i64) -> (r: Result<Vec<Effect>, ProgramError>)
    ensures
        match r {
            Ok(effects) => {
                &&& close_error(*cfg, states(accounts@), data@, now) is None
                &&& close_effects(*cfg, states(accounts@), data@, effect_views(effects@))
            },
            Err(e) => close_error(*cfg, states(accounts@), data@, now) == Some(e),
        },
{
    let ghost accts = states(accounts@);
    if data.len() == 0 {
        return Err(ProgramError::InvalidInstructionData);
    }
    let token_type = data[0];
    validate_token_type(token_type)?;
    let is_sol = token_type == TOKEN_TYPE_SOL;
    let min_accounts: usize = if is_sol { 3 } else { 5 };
    if accounts.len() < min_accounts {
        return Err(ProgramError::Custom(RedPacketError::NotEnoughAccounts));
    }
    let rp_index: usize = if is_sol { 1 } else { 2 };
    let vault_index: usize = if is_sol { 2 } else { 3 };
    assert(accts[rp_index as int] == accounts@[rp_index as int]@);
    assert(accts[vault_index as int] == accounts@[vault_index as int]@);
    assert(accts[0] == accounts@[0]@);
    if !is_sol {
        assert(accts[4] == accounts@[4]@);
        if !accounts[4].address.same_as(&cfg.token_program) {
            return Err(ProgramError::Custom(RedPacketError::InvalidTokenProgram));
        }
    }
    let creator_account = &accounts[0];
    if !creator_account.is_signer {
        return Err(ProgramError::MissingRequiredSignature);
    }
    let red_packet = &accounts[rp_index];
    let vault = &accounts[vault_index];
    validate_redpacket(red_packet, &cfg.program_id)?;
    let rp_data = red_packet.data.as_slice();
    let ghost v = packet_of(rp_data@);
    if crate::state::get_token_type(rp_data) != token_type {
        return Err(ProgramError::Custom(RedPacketError::InvalidTokenType));
    }
    let creator = Address::from_slice(crate::state::get_creator(rp_data), 0);
    assert(creator@ =~= v.creator);
    if !creator.same_as(&creator_account.address) {
        return Err(ProgramError::Custom(RedPacketError::Unauthorized));
    }
    let id = crate::state::get_id(rp_data);
    let mut vault_seeds = vault_seed_list(&creator, id);
    push_bump(&mut vault_seeds, crate::state::get_vault_bump(rp_data));
    check_derived(&vault_seeds, &cfg.program_id, &vault.address)?;
    let all_claimed = crate::state::get_num_claimed(rp_data) >= crate::state::get_num_recipients(rp_data);
    let is_expired = now >= crate::state::get_expires_at(rp_data);
    if !all_claimed && !is_expired {
        return Err(ProgramError::Custom(RedPacketError::NotExpiredOrFull));
    }
    let mut effects: Vec<Effect> = Vec::new();
    if is_sol {
        if !vault.owner.same_as(&cfg.program_id) {
            return Err(ProgramError::Custom(RedPacketError::InvalidAccountOwner));
        }
        if creator_account.lamports > u64::MAX - vault.lamports
            || creator_account.lamports + vault.lamports > u64::MAX - red_packet.lamports {
            return Err(ProgramError::ArithmeticOverflow);
        }
        if vault.lamports > 0 {
            effects.push(Effect::MoveLamports { from: vault_index, to: 0, amount: vault.lamports });
        }
        assert(effect_views(effects@) =~= close_vault_out(accts, data@));
    } else {
        if creator_account.lamports > u64::MAX - red_packet.lamports {
            return Err(ProgramError::ArithmeticOverflow);
        }
        let remaining = crate::state::get_remaining_amount(rp_data);
        let bump = crate::state::get_bump(rp_data);
        if remaining > 0 {
            let mut seeds = packet_seed_list(&creator, id);
            push_bump(&mut seeds, bump);
            effects.push(Effect::TokenTransfer { from: vault_index, to: 1, authority: rp_index, amount: remaining, seeds });
        }
        let mut seeds = packet_seed_list(&creator, id);
        push_bump(&mut seeds, bump);
        effects.push(Effect::CloseTokenAccount { account: vault_index, destination: 0, authority: rp_index, seeds });
        assert(effect_views(effects@) =~= close_vault_out(accts, data@));
    }
    let ghost head = effect_views(effects@);
    effects.push(Effect::MoveLamports { from: rp_index, to: 0, amount: red_packet.lamports });
    let zeros: Vec<u8> = vec![0u8; red_packet.data.len()];
    assert(zeros@ =~= Seq::new(accts[rp_index as int].data.len(), |i: int| 0u8));
    effects.push(Effect::WriteData { account: rp_index, data: zeros });
    assert(effect_views(effects@) =~= head + seq![effects@[effects@.len() - 2]@, effects@[effects@.len() - 1]@]);
    Ok(effects)
}

} // verus!
