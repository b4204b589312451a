//! The Claim instruction: a signer takes the next slot of a packet.
use crate::account::{
    effect_views, packet_account_check, token_type_known, validate_redpacket, validate_token_type,
    Account, AccountState, Effect, EffectView, states,
};
use crate::address::Address;
use crate::constants::{Config, TOKEN_TYPE_SOL};
use crate::derive::{
    check_derived, derives, packet_seed_list, packet_seeds, push_bump, vault_seed_list,
    vault_seeds, with_bump,
};
use crate::error::{ProgramError, RedPacketError};
use crate::rules::{
    balance_holds, claim_outcome, claim_slot, claimers_distinct, lemma_claim_keeps_balance,
    lemma_claim_keeps_claimers_distinct,
};
use crate::state::{packet_fits, packet_of, PacketView};
use vstd::prelude::*;

verus! {

/// Positions of the record and the vault in a claim's account list.
pub open spec fn claim_record_index(sol: bool) -> int {
    if sol {
        1
    } else {
        2
    }
}

pub open spec fn claim_vault_index(sol: bool) -> int {
    if sol {
        2
    } else {
        3
    }
}

/// The first check that a claim fails, if any, in the order the handler
/// makes them.
pub open spec fn claim_error(cfg: Config, accts: Seq<AccountState>, data: Seq<u8>, now: i64) -> Option<ProgramError> {
    if data.len() == 0 {
        Some(ProgramError::InvalidInstructionData)
    } else if !token_type_known(data[0]) {
        Some(ProgramError::Custom(RedPacketError::InvalidTokenType))
    } else {
        let sol = data[0] == TOKEN_TYPE_SOL;
        let rp = claim_record_index(sol);
        let vault = claim_vault_index(sol);
        if accts.len() < (if sol { 3int } else { 5int }) {
            Some(ProgramError::Custom(RedPacketError::NotEnoughAccounts))
        } else if !sol && accts[4].address != cfg.token_program@ {
            Some(ProgramError::Custom(RedPacketError::InvalidTokenProgram))
        } else if !accts[0].is_signer {
            Some(ProgramError::MissingRequiredSignature)
        } else if packet_account_check(accts[rp], cfg.program_id@) is Some {
            packet_account_check(accts[rp], cfg.program_id@)
        } else {
            let v = packet_of(accts[rp].data);
            if v.token_type != data[0] {
                Some(ProgramError::Custom(RedPacketError::InvalidTokenType))
            } else if !derives(
                with_bump(vault_seeds(v.creator, v.id), v.vault_bump),
                cfg.program_id@,
                accts[vault].address,
            ) {
                Some(ProgramError::Custom(RedPacketError::InvalidPDA))
            } else {
                match claim_outcome(v, accts[0].address, now) {
                    Err(e) => Some(e),
                    Ok(_) => {
                        let amount = v.amounts[v.num_claimed as int];
                        if sol && accts[vault].owner != cfg.program_id@ {
                            Some(ProgramError::Custom(RedPacketError::InvalidAccountOwner))
                        } else if sol && (accts[vault].lamports < amount || accts[0].lamports + amount
                            > u64::MAX) {
                            Some(ProgramError::ArithmeticOverflow)
                        } else {
                            None
                        }
                    },
                }
            }
        }
    }
}

/// The effects of an accepted claim: the payout of the next slot from the
/// vault to the claimer, then the record with the claim written in.
pub open spec fn claim_effects(cfg: Config, accts: Seq<AccountState>, data: Seq<u8>, now: i64, effects: Seq<EffectView>) -> bool {
    let sol = data[0] == TOKEN_TYPE_SOL;
    let rp = claim_record_index(sol);
    let vault = claim_vault_index(sol);
    let v = packet_of(accts[rp].data);
    let amount = v.amounts[v.num_claimed as int];
    &&& effects.len() == 2
    &&& effects[0] == if sol {
        EffectView::MoveLamports { from: vault, to: 0, amount }
    } else {
        EffectView::TokenTransfer {
            from: vault,
            to: 1,
            authority: rp,
            amount,
            seeds: with_bump(packet_seeds(v.creator, v.id), v.bump),
        }
    }
    &&& effects[1] is WriteData
    &&& effects[1]->WriteData_account == rp
    &&& written_record(accts[rp].data, effects[1]->WriteData_data, claim_outcome(v, accts[0].address, now)->Ok_0)
}

/// `d2` is the record `w` written over the bytes `d1`: same length, same
/// discriminator, and the fields of `w`.
pub open spec fn written_record(d1: Seq<u8>, d2: Seq<u8>, w: PacketView) -> bool {
    &&& d2.len() == d1.len()
    &&& d2[0] == d1[0]
    &&& packet_fits(d2)
    &&& packet_of(d2) == w
}

/// The record that an accepted Claim writes is still at rest when the one
/// it read was: its balance holds and no identity fills two claimed slots.
pub proof fn lemma_claim_handler_keeps_record_at_rest(
    cfg: Config,
    accts: Seq<AccountState>,
    data: Seq<u8>,
    now: i64,
    effects: Seq<EffectView>,
)
    requires
        claim_error(cfg, accts, data, now) is None,
        claim_effects(cfg, accts, data, now, effects),
        balance_holds(packet_of(accts[claim_record_index(data[0] == TOKEN_TYPE_SOL)].data)),
        claimers_distinct(packet_of(accts[claim_record_index(data[0] == TOKEN_TYPE_SOL)].data)),
    ensures
        balance_holds(packet_of(effects[1]->WriteData_data)),
        claimers_distinct(packet_of(effects[1]->WriteData_data)),
{
    let v = packet_of(accts[claim_record_index(data[0] == TOKEN_TYPE_SOL)].data);
    let claimer = accts[0].address;
    lemma_claim_keeps_balance(v, claimer, now);
    lemma_claim_keeps_claimers_distinct(v, claimer, now);
}

/// Handles Claim: checks the claimer, the record and its vault, takes the
/// next slot for the claimer, and asks for its payout.
pub fn process_claim(cfg: &Config, accounts: &Vec<Account>, data: &[u8], now: i64) -> (r: Result<Vec<Effect>, ProgramError>)
    ensures
        match r {
            Ok(effects) => {
                &&& claim_error(*cfg, states(accounts@), data@, now) is None
                &&& claim_effects(*cfg, states(accounts@), data@, now, effect_views(effects@))
            },
            Err(e) => claim_error(*cfg, states(accounts@), data@, now) == Some(e),
        },
{
    let ghost accts = states(accounts@);
    if data.len() == 0 {
        return Err(ProgramError::InvalidInstructionData);
    }
    let token_type = data[0];
    validate_token_type(token_type)?;
    let is_sol = token_type == TOKEN_TYPE_SOL;
    let min_accounts: usize = if is_sol { 3 } else { 5 };
    if accounts.len() < min_accounts {
        return Err(ProgramError::Custom(RedPacketError::NotEnoughAccounts));
    }
    let rp_index: usize = if is_sol { 1 } else { 2 };
    let vault_index: usize = if is_sol { 2 } else { 3 };
    assert(accts[rp_index as int] == accounts@[rp_index as int]@);
    assert(accts[vault_index as int] == accounts@[vault_index as int]@);
    assert(accts[0] == accounts@[0]@);
    if !is_sol {
        assert(accts[4] == accounts@[4]@);
        if !accounts[4].address.same_as(&cfg.token_program) {
            return Err(ProgramError::Custom(RedPacketError::InvalidTokenProgram));
        }
    }
    let claimer = &accounts[0];
    if !claimer.is_signer {
        return Err(ProgramError::MissingRequiredSignature);
    }
    let red_packet = &accounts[rp_index];
    let vault = &accounts[vault_index];
    validate_redpacket(red_packet, &cfg.program_id)?;
    let rp_data = red_packet.data.as_slice();
    let ghost v = packet_of(rp_data@);
    if crate::state::get_token_type(rp_data) != token_type {
        return Err(ProgramError::Custom(RedPacketError::InvalidTokenType));
    }
    let creator = Address::from_slice(crate::state::get_creator(rp_data), 0);
    assert(creator@ =~= v.creator);
    let id = crate::state::get_id(rp_data);
    let mut vault_seeds = vault_seed_list(&creator, id);
    push_bump(&mut vault_seeds, crate::state::get_vault_bump(rp_data));
    check_derived(&vault_seeds, &cfg.program_id, &vault.address)?;
    let mut new_data = red_packet.data.clone();
    assert(new_data@ == rp_data@);
    let claimer_key = claimer.address.to_vec();
    let amount = claim_slot(new_data.as_mut_slice(), claimer_key.as_slice(), now)?;
    let payout = if is_sol {
        if !vault.owner.same_as(&cfg.program_id) {
            return Err(ProgramError::Custom(RedPacketError::InvalidAccountOwner));
        }
        if vault.lamports < amount {
            return Err(ProgramError::ArithmeticOverflow);
        }
        if claimer.lamports > u64::MAX - amount {
            return Err(ProgramError::ArithmeticOverflow);
        }
        Effect::MoveLamports { from: vault_index, to: 0, amount }
    } else {
        let mut seeds = packet_seed_list(&creator, id);
        push_bump(&mut seeds, crate::state::get_bump(rp_data));
        Effect::TokenTransfer { from: vault_index, to: 1, authority: rp_index, amount, seeds }
    };
    let mut effects: Vec<Effect> = Vec::new();
    effects.push(payout);
    effects.push(Effect::WriteData { account: rp_index, data: new_data });
    assert(effect_views(effects@) =~= seq![effects@[0]@, effects@[1]@]);
    Ok(effects)
}

} // verus!
