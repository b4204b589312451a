//! The treasury instructions: one-time setup per asset kind, and fee
//! withdrawal by the administrator.
use crate::account::{
    effect_views, token_type_known, treasury_account_check, validate_token_type, validate_treasury,
    Account, AccountState, Effect, EffectView, states,
};
use crate::address::Address;
use crate::bytes::{read_u64, u64_at};
use crate::constants::{
    native_mint_bytes, native_sol_mint, rent_exempt, rent_floor, system_program_bytes,
    system_program_id, Config, TOKEN_ACCOUNT_SIZE, TOKEN_TYPE_SOL, TREASURY_DISCRIMINATOR,
    TREASURY_SIZE,
};
use crate::derive::{
    check_derived, derives, push_bump, treasury_seed_list, treasury_seeds,
    treasury_vault_seed_list, treasury_vault_seeds, with_bump,
};
use crate::error::{ProgramError, RedPacketError};
use crate::rules::{native_available, native_withdrawable, withdraw_amount, withdrawal};
use crate::state::{
    get_sol_fees_collected, get_treasury_bump, get_treasury_mint, get_treasury_vault_bump,
    init_treasury, set_sol_fees_collected, treasury_of, TreasuryView,
};
use vstd::prelude::*;

verus! {

/// Where a token account keeps its balance.
pub const TOKEN_AMOUNT_OFFSET: usize = 64;

/// The asset identity a treasury instruction is about.
pub open spec fn init_mint(accts: Seq<AccountState>, sol: bool) -> Seq<u8> {
    if sol {
        native_mint_bytes()
    } else {
        accts[3].address
    }
}

/// The first check that an InitTreasury fails, if any, in order.
pub open spec fn init_treasury_error(cfg: Config, accts: Seq<AccountState>, d: Seq<u8>) -> Option<ProgramError> {
    if d.len() < 3 {
        Some(ProgramError::InvalidInstructionData)
    } else if !token_type_known(d[0]) {
        Some(ProgramError::Custom(RedPacketError::InvalidTokenType))
    } else {
        let sol = d[0] == TOKEN_TYPE_SOL;
        if accts.len() < (if sol { 3int } else { 6int }) {
            Some(ProgramError::Custom(RedPacketError::NotEnoughAccounts))
        } else if !accts[0].is_signer {
            Some(ProgramError::MissingRequiredSignature)
        } else if sol && accts[2].address != system_program_bytes() {
            Some(ProgramError::Custom(RedPacketError::InvalidSystemProgram))
        } else if !sol && accts[4].address != cfg.token_program@ {
            Some(ProgramError::Custom(RedPacketError::InvalidTokenProgram))
        } else if !sol && accts[5].address != system_program_bytes() {
            Some(ProgramError::Custom(RedPacketError::InvalidSystemProgram))
        } else if !derives(with_bump(treasury_seeds(init_mint(accts, sol)), d[1]), cfg.program_id@, accts[1].address) {
            Some(ProgramError::Custom(RedPacketError::InvalidPDA))
        } else if accts[1].lamports > 0 {
            Some(ProgramError::Custom(RedPacketError::TreasuryAlreadyInitialized))
        } else if !sol && !derives(
            with_bump(treasury_vault_seeds(init_mint(accts, sol)), d[2]),
            cfg.program_id@,
            accts[2].address,
        ) {
            Some(ProgramError::Custom(RedPacketError::InvalidPDA))
        } else {
            None
        }
    }
}

/// The effects of an accepted InitTreasury: the treasury record allocated
/// and written, and for a token the treasury's vault created and
/// initialised.
pub open spec fn init_treasury_effects(cfg: Config, accts: Seq<AccountState>, d: Seq<u8>, effects: Seq<EffectView>) -> bool {
    let sol = d[0] == TOKEN_TYPE_SOL;
    let mint = init_mint(accts, sol);
    &&& effects.len() == if sol { 2int } else { 4int }
    &&& effects[0] == EffectView::CreateAccount {
        from: 0,
        to: 1,
        lamports: rent_floor(43) as u64,
        space: 43,
        owner: cfg.program_id@,
        seeds: with_bump(treasury_seeds(mint), d[1]),
    }
    &&& effects[1] is WriteData
    &&& effects[1]->WriteData_account == 1
    &&& effects[1]->WriteData_data.len() == 43
    &&& effects[1]->WriteData_data[0] == TREASURY_DISCRIMINATOR
    &&& treasury_of(effects[1]->WriteData_data) == (TreasuryView {
        bump: d[1],
        vault_bump: if sol { 0 } else { d[2] },
        mint,
        fees_collected: 0,
    })
    &&& !sol ==> {
        &&& effects[2] == EffectView::CreateAccount {
            from: 0,
            to: 2,
            lamports: rent_floor(165) as u64,
            space: 165,
            owner: cfg.token_program@,
            seeds: with_bump(treasury_vault_seeds(mint), d[2]),
        }
        &&& effects[3] == EffectView::InitializeTokenAccount { account: 2, mint: 3, owner: accts[1].address }
    }
}

/// Handles InitTreasury: checks the payer and the treasury's derived
/// address, refuses a treasury that already holds a balance, and asks for
/// the treasury (and its token vault) to be created.
pub fn process_init_treasury(cfg: &Config, accounts: &Vec<Account>, data: &[u8]) -> (r: Result<Vec<Effect>, ProgramError>)
    ensures
        match r {
            Ok(effects) => {
                &&& init_treasury_error(*cfg, states(accounts@), data@) is None
                &&& init_treasury_effects(*cfg, states(accounts@), data@, effect_views(effects@))
            },
            Err(e) => init_treasury_error(*cfg, states(accounts@), data@) == Some(e),
        },
{
    let ghost accts = states(accounts@);
    if data.len() < 3 {
        return Err(ProgramError::InvalidInstructionData);
    }
    let token_type = data[0];
    validate_token_type(token_type)?;
    let treasury_bump = data[1];
    let vault_bump = data[2];
    let is_sol = token_type == TOKEN_TYPE_SOL;
    let min_accounts: usize = if is_sol { 3 } else { 6 };
    if accounts.len() < min_accounts {
        return Err(ProgramError::Custom(RedPacketError::NotEnoughAccounts));
    }
    assert(forall|i: int| 0 <= i < accounts@.len() ==> #[trigger] accts[i] == accounts@[i]@);
    if !accounts[0].is_signer {
        return Err(ProgramError::MissingRequiredSignature);
    }
    let mint = if is_sol {
        if !accounts[2].address.same_as(&system_program_id()) {
            return Err(ProgramError::Custom(RedPacketError::InvalidSystemProgram));
        }
        native_sol_mint()
    } else {
        if !accounts[4].address.same_as(&cfg.token_program) {
            return Err(ProgramError::Custom(RedPacketError::InvalidTokenProgram));
        }
        if !accounts[5].address.same_as(&system_program_id()) {
            return Err(ProgramError::Custom(RedPacketError::InvalidSystemProgram));
        }
        accounts[3].address
    };
    let mut treasury_seeds = treasury_seed_list(&mint);
    push_bump(&mut treasury_seeds, treasury_bump);
    check_derived(&treasury_seeds, &cfg.program_id, &accounts[1].address)?;
    if accounts[1].lamports > 0 {
        return Err(ProgramError::Custom(RedPacketError::TreasuryAlreadyInitialized));
    }
    let effective_vault_bump: u8 = if is_sol { 0 } else { vault_bump };
    let mut tdata: Vec<u8> = vec![0u8; TREASURY_SIZE];
    let mint_key = mint.to_vec();
    init_treasury(tdata.as_mut_slice(), treasury_bump, effective_vault_bump, mint_key.as_slice());
    set_sol_fees_collected(tdata.as_mut_slice(), 0);
    let mut effects: Vec<Effect> = Vec::new();
    effects.push(Effect::CreateAccount {
        from: 0,
        to: 1,
        lamports: rent_exempt(TREASURY_SIZE),
        space: TREASURY_SIZE as u64,
        owner: cfg.program_id,
        seeds: treasury_seeds,
    });
    effects.push(Effect::WriteData { account: 1, data: tdata });
    if !is_sol {
        let mut vault_seeds = treasury_vault_seed_list(&mint);
        push_bump(&mut vault_seeds, vault_bump);
        check_derived(&vault_seeds, &cfg.program_id, &accounts[2].address)?;
        effects.push(Effect::CreateAccount {
            from: 0,
            to: 2,
            lamports: rent_exempt(TOKEN_ACCOUNT_SIZE),
            space: TOKEN_ACCOUNT_SIZE as u64,
            owner: cfg.token_program,
            seeds: vault_seeds,
        });
        effects.push(Effect::InitializeTokenAccount { account: 2, mint: 3, owner: accounts[1].address });
    }
    Ok(effects)
}

/// The first check that a WithdrawFees fails, if any, in order.
pub open spec fn withdraw_error(cfg: Config, accts: Seq<AccountState>, d: Seq<u8>) -> Option<ProgramError> {
    if d.len() < 9 {
        Some(ProgramError::InvalidInstructionData)
    } else if !token_type_known(d[0]) {
        Some(ProgramError::Custom(RedPacketError::InvalidTokenType))
    } else {
        let sol = d[0] == TOKEN_TYPE_SOL;
        let requested = u64_at(d, 1);
        if accts.len() < (if sol { 2int } else { 5int }) {
            Some(ProgramError::Custom(RedPacketError::NotEnoughAccounts))
        } else if !accts[0].is_signer {
            Some(ProgramError::MissingRequiredSignature)
        } else if accts[0].address != cfg.admin@ {
            Some(ProgramError::Custom(RedPacketError::UnauthorizedAdmin))
        } else if sol {
            let t = accts[1];
            if treasury_account_check(t, cfg.program_id@) is Some {
                treasury_account_check(t, cfg.program_id@)
            } else if !derives(
                with_bump(treasury_seeds(native_mint_bytes()), treasury_of(t.data).bump),
                cfg.program_id@,
                t.address,
            ) {
                Some(ProgramError::Custom(RedPacketError::InvalidPDA))
            } else {
                let available = native_available(treasury_of(t.data).fees_collected, t.lamports, rent_floor(43) as u64);
                match withdrawal(requested, available as u64) {
                    Err(e) => Some(e),
                    Ok(w) => if accts[0].lamports + w > u64::MAX {
                        Some(ProgramError::ArithmeticOverflow)
                    } else {
                        None
                    },
                }
            }
        } else {
            let t = accts[2];
            if accts[4].address != cfg.token_program@ {
                Some(ProgramError::Custom(RedPacketError::InvalidTokenProgram))
            } else if treasury_account_check(t, cfg.program_id@) is Some {
                treasury_account_check(t, cfg.program_id@)
            } else if !derives(
                with_bump(treasury_seeds(treasury_of(t.data).mint), treasury_of(t.data).bump),
                cfg.program_id@,
                t.address,
            ) {
                Some(ProgramError::Custom(RedPacketError::InvalidPDA))
            } else if !derives(
                with_bump(treasury_vault_seeds(treasury_of(t.data).mint), treasury_of(t.data).vault_bump),
                cfg.program_id@,
                accts[3].address,
            ) {
                Some(ProgramError::Custom(RedPacketError::InvalidPDA))
            } else if accts[3].data.len() < 72 {
                Some(ProgramError::Custom(RedPacketError::InvalidTokenAccount))
            } else {
                match withdrawal(requested, u64_at(accts[3].data, 64)) {
                    Err(e) => Some(e),
                    Ok(_) => None,
                }
            }
        }
    }
}

/// The effects of an accepted WithdrawFees: the native treasury pays the
/// administrator and lowers its fee counter; a token treasury's vault
/// transfers to the administrator's token account.
pub open spec fn withdraw_effects(cfg: Config, accts: Seq<AccountState>, d: Seq<u8>, effects: Seq<EffectView>) -> bool {
    let sol = d[0] == TOKEN_TYPE_SOL;
    let requested = u64_at(d, 1);
    if sol {
        let t = accts[1];
        let available = native_available(treasury_of(t.data).fees_collected, t.lamports, rent_floor(43) as u64);
        let w = withdrawal(requested, available as u64)->Ok_0;
        &&& effects.len() == 2
        &&& effects[0] == EffectView::MoveLamports { from: 1, to: 0, amount: w }
        &&& effects[1] is WriteData
        &&& effects[1]->WriteData_account == 1
        &&& effects[1]->WriteData_data.len() == t.data.len()
        &&& effects[1]->WriteData_data[0] == t.data[0]
        &&& treasury_of(effects[1]->WriteData_data) == (TreasuryView {
            fees_collected: (treasury_of(t.data).fees_collected - w) as u64,
            ..treasury_of(t.data)
        })
    } else {
        let t = accts[2];
        let w = withdrawal(requested, u64_at(accts[3].data, 64))->Ok_0;
        effects == seq![
            EffectView::TokenTransfer {
                from: 3,
                to: 1,
                authority: 2,
                amount: w,
                seeds: with_bump(treasury_seeds(treasury_of(t.data).mint), treasury_of(t.data).bump),
            },
        ]
    }
}

/// Handles WithdrawFees: only the administrator may take fees out, at most
/// what is available (zero asking for all of it).
pub fn process_withdraw_fees(cfg: &Config, accounts: &Vec<Account>, data: &[u8]) -> (r: Result<Vec<Effect>, ProgramError>)
    ensures
        match r {
            Ok(effects) => {
                &&& withdraw_error(*cfg, states(accounts@), data@) is None
                &&& withdraw_effects(*cfg, states(accounts@), data@, effect_views(effects@))
            },
            Err(e) => withdraw_error(*cfg, states(accounts@), data@) == Some(e),
        },
{
    let ghost accts = states(accounts@);
    if data.len() < 9 {
        return Err(ProgramError::InvalidInstructionData);
    }
    let token_type = data[0];
    validate_token_type(token_type)?;
    let amount = read_u64(data, 1);
    let is_sol = token_type == TOKEN_TYPE_SOL;
    let min_accounts: usize = if is_sol { 2 } else { 5 };
    if accounts.len() < min_accounts {
        return Err(ProgramError::Custom(RedPacketError::NotEnoughAccounts));
    }
    assert(forall|i: int| 0 <= i < accounts@.len() ==> #[trigger] accts[i] == accounts@[i]@);
    let admin = &accounts[0];
    if !admin.is_signer {
        return Err(ProgramError::MissingRequiredSignature);
    }
    if !admin.address.same_as(&cfg.admin) {
        return Err(ProgramError::Custom(RedPacketError::UnauthorizedAdmin));
    }
    let mut effects: Vec<Effect> = Vec::new();
    if is_sol {
        let treasury = &accounts[1];
        validate_treasury(treasury, &cfg.program_id)?;
        let tdata = treasury.data.as_slice();
        let mut seeds = treasury_seed_list(&native_sol_mint());
        push_bump(&mut seeds, get_treasury_bump(tdata));
        check_derived(&seeds, &cfg.program_id, &treasury.address)?;
        let fees = get_sol_fees_collected(tdata);
        let available = native_withdrawable(fees, treasury.lamports, rent_exempt(TREASURY_SIZE));
        let w = withdraw_amount(amount, available)?;
        if admin.lamports > u64::MAX - w {
            return Err(ProgramError::ArithmeticOverflow);
        }
        let mut new_data = treasury.data.clone();
        set_sol_fees_collected(new_data.as_mut_slice(), fees - w);
        effects.push(Effect::MoveLamports { from: 1, to: 0, amount: w });
        effects.push(Effect::WriteData { account: 1, data: new_data });
    } else {
        if !accounts[4].address.same_as(&cfg.token_program) {
            return Err(ProgramError::Custom(RedPacketError::InvalidTokenProgram));
        }
        let treasury = &accounts[2];
        let treasury_vault = &accounts[3];
        validate_treasury(treasury, &cfg.program_id)?;
        let tdata = treasury.data.as_slice();
        let mint = Address::from_slice(get_treasury_mint(tdata), 0);
        assert(mint@ =~= treasury_of(tdata@).mint);
        let bump = get_treasury_bump(tdata);
        let mut seeds = treasury_seed_list(&mint);
        push_bump(&mut seeds, bump);
        check_derived(&seeds, &cfg.program_id, &treasury.address)?;
        let mut vault_seeds = treasury_vault_seed_list(&mint);
        push_bump(&mut vault_seeds, get_treasury_vault_bump(tdata));
        check_derived(&vault_seeds, &cfg.program_id, &treasury_vault.address)?;
        if treasury_vault.data.len() < TOKEN_AMOUNT_OFFSET + 8 {
            return Err(ProgramError::Custom(RedPacketError::InvalidTokenAccount));
        }
        let balance = read_u64(treasury_vault.data.as_slice(), TOKEN_AMOUNT_OFFSET);
        let w = withdraw_amount(amount, balance)?;
        effects.push(Effect::TokenTransfer { from: 3, to: 1, authority: 2, amount: w, seeds });
        assert(effect_views(effects@) =~= seq![effects@[0]@]);
    }
    Ok(effects)
}

} // verus!
