//! The instruction dispatcher: the first byte selects the handler, which
//! receives the rest of the payload.
use crate::account::{outcome_view, states, Account, Effect};
use crate::claim::{claim_effects, claim_error, process_claim};
use crate::close::{close_effects, close_error, process_close};
use crate::constants::Config;
use crate::create::{create_effects, create_error, process_create};
use crate::account::{AccountState, EffectView};
use crate::error::ProgramError;
use crate::treasury::{
    init_treasury_effects, init_treasury_error, process_init_treasury, process_withdraw_fees,
    withdraw_effects, withdraw_error,
};
use vstd::prelude::*;

verus! {

/// The operations, by opcode.
pub const OP_CREATE: u8 = 0;
pub const OP_CLAIM: u8 = 1;
pub const OP_CLOSE: u8 = 2;
pub const OP_INIT_TREASURY: u8 = 3;
pub const OP_WITHDRAW_FEES: u8 = 4;

/// The result `r` is what the handler of `opcode` gives on `body`: its
/// first failing check, or, where none fails, the effects it describes.
pub open spec fn handled(
    opcode: u8,
    cfg: Config,
    accts: Seq<AccountState>,
    body: Seq<u8>,
    now: i64,
    r: Result<Seq<EffectView>, ProgramError>,
) -> bool {
    let error = if opcode == OP_CREATE {
        create_error(cfg, accts, body, now)
    } else if opcode == OP_CLAIM {
        claim_error(cfg, accts, body, now)
    } else if opcode == OP_CLOSE {
        close_error(cfg, accts, body, now)
    } else if opcode == OP_INIT_TREASURY {
        init_treasury_error(cfg, accts, body)
    } else if opcode == OP_WITHDRAW_FEES {
        withdraw_error(cfg, accts, body)
    } else {
        Some(ProgramError::InvalidInstructionData)
    };
    match r {
        Err(e) => error == Some(e),
        Ok(effects) => error is None && if opcode == OP_CREATE {
            create_effects(cfg, accts, body, effects)
        } else if opcode == OP_CLAIM {
            claim_effects(cfg, accts, body, now, effects)
        } else if opcode == OP_CLOSE {
            close_effects(cfg, accts, body, effects)
        } else if opcode == OP_INIT_TREASURY {
            init_treasury_effects(cfg, accts, body, effects)
        } else {
            withdraw_effects(cfg, accts, body, effects)
        },
    }
}

/// Routes an instruction to its handler by its first byte.
pub fn process_instruction(cfg: &Config, accounts: &Vec<Account>, instruction_data: &[u8], now: i64) -> (r: Result<Vec<Effect>, ProgramError>)
    ensures
        instruction_data@.len() == 0 ==> r == Err::<Vec<Effect>, ProgramError>(ProgramError::InvalidInstructionData),
        instruction_data@.len() > 0 ==> handled(
            instruction_data@[0],
            *cfg,
            states(accounts@),
            instruction_data@.subrange(1, instruction_data@.len() as int),
            now,
            outcome_view(r),
        ),
{
    if instruction_data.len() == 0 {
        return Err(ProgramError::InvalidInstructionData);
    }
    let opcode = instruction_data[0];
    let body = &instruction_data[1..instruction_data.len()];
    if opcode == OP_CREATE {
        process_create(cfg, accounts, body, now)
    } else if opcode == OP_CLAIM {
        process_claim(cfg, accounts, body, now)
    } else if opcode == OP_CLOSE {
        process_close(cfg, accounts, body, now)
    } else if opcode == OP_INIT_TREASURY {
        process_init_treasury(cfg, accounts, body)
    } else if opcode == OP_WITHDRAW_FEES {
        process_withdraw_fees(cfg, accounts, body)
    } else {
        Err(ProgramError::InvalidInstructionData)
    }
}

} // verus!
