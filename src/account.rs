//! Accounts as a handler sees them, and the effects a handler asks the host
//! to perform.
use crate::address::Address;
use crate::constants::{
    REDPACKET_BASE_SIZE, REDPACKET_DISCRIMINATOR, TOKEN_TYPE_SOL, TOKEN_TYPE_SPL,
    TREASURY_DISCRIMINATOR, TREASURY_SIZE, redpacket_size,
};
use crate::error::{ProgramError, RedPacketError};
use crate::derive::seed_views;
use crate::state::packet_fits;
use vstd::prelude::*;

verus! {

/// A snapshot of one account referenced by an instruction.
#[derive(Clone, Debug)]
pub struct Account {
    pub address: Address,
    pub owner: Address,
    pub lamports: u64,
    pub data: Vec<u8>,
    pub is_signer: bool,
}

pub struct AccountState {
    pub address: Seq<u8>,
    pub owner: Seq<u8>,
    pub lamports: u64,
    pub data: Seq<u8>,
    pub is_signer: bool,
}

impl View for Account {
    type V = AccountState;

    open spec fn view(&self) -> AccountState {
        AccountState {
            address: self.address@,
            owner: self.owner@,
            lamports: self.lamports,
            data: self.data@,
            is_signer: self.is_signer,
        }
    }
}

/// The states of a list of accounts.
pub open spec fn states(accounts: Seq<Account>) -> Seq<AccountState> {
    accounts.map_values(|a: Account| a@)
}

/// One step the host performs, in order, once a handler has accepted an
/// instruction. Accounts are named by their position in the instruction's
/// account list; `seeds` are the derivation seeds of the address that signs,
/// empty where the authority signed the transaction itself.
#[derive(Clone, Debug)]
pub enum Effect {
    /// System program: allocate `space` bytes at `to`, funded by `from` with
    /// `lamports`, owned by `owner`.
    CreateAccount { from: usize, to: usize, lamports: u64, space: u64, owner: Address, seeds: Vec<Vec<u8>> },
    /// System program: move `amount` lamports from a system account.
    SystemTransfer { from: usize, to: usize, amount: u64 },
    /// Token program: make `account` a token account of `mint` held by `owner`.
    InitializeTokenAccount { account: usize, mint: usize, owner: Address },
    /// Token program: move `amount` tokens.
    TokenTransfer { from: usize, to: usize, authority: usize, amount: u64, seeds: Vec<Vec<u8>> },
    /// Token program: close a token account, its deposit going to `destination`.
    CloseTokenAccount { account: usize, destination: usize, authority: usize, seeds: Vec<Vec<u8>> },
    /// Debit `from` and credit `to` by `amount` lamports directly.
    MoveLamports { from: usize, to: usize, amount: u64 },
    /// Replace the data of `account` with `data`, of the same length.
    WriteData { account: usize, data: Vec<u8> },
}

pub enum EffectView {
    CreateAccount { from: int, to: int, lamports: u64, space: u64, owner: Seq<u8>, seeds: Seq<Seq<u8>> },
    SystemTransfer { from: int, to: int, amount: u64 },
    InitializeTokenAccount { account: int, mint: int, owner: Seq<u8> },
    TokenTransfer { from: int, to: int, authority: int, amount: u64, seeds: Seq<Seq<u8>> },
    CloseTokenAccount { account: int, destination: int, authority: int, seeds: Seq<Seq<u8>> },
    MoveLamports { from: int, to: int, amount: u64 },
    WriteData { account: int, data: Seq<u8> },
}

impl View for Effect {
    type V = EffectView;

    open spec fn view(&self) -> EffectView {
        match self {
            Effect::CreateAccount { from, to, lamports, space, owner, seeds } => EffectView::CreateAccount {
                from: *from as int,
                to: *to as int,
                lamports: *lamports,
                space: *space,
                owner: owner@,
                seeds: seed_views(seeds@),
            },
            Effect::SystemTransfer { from, to, amount } => EffectView::SystemTransfer {
                from: *from as int,
                to: *to as int,
                amount: *amount,
            },
            Effect::InitializeTokenAccount { account, mint, owner } => EffectView::InitializeTokenAccount {
                account: *account as int,
                mint: *mint as int,
                owner: owner@,
            },
            Effect::TokenTransfer { from, to, authority, amount, seeds } => EffectView::TokenTransfer {
                from: *from as int,
                to: *to as int,
                authority: *authority as int,
                amount: *amount,
                seeds: seed_views(seeds@),
            },
            Effect::CloseTokenAccount { account, destination, authority, seeds } => EffectView::CloseTokenAccount {
                account: *account as int,
                destination: *destination as int,
                authority: *authority as int,
                seeds: seed_views(seeds@),
            },
            Effect::MoveLamports { from, to, amount } => EffectView::MoveLamports {
                from: *from as int,
                to: *to as int,
                amount: *amount,
            },
            Effect::WriteData { account, data } => EffectView::WriteData { account: *account as int, data: data@ },
        }
    }
}

/// The views of a list of effects.
pub open spec fn effect_views(effects: Seq<Effect>) -> Seq<EffectView> {
    effects.map_values(|e: Effect| e@)
}

/// What a handler's result says: the effects it asks for, or its error.
pub open spec fn outcome_view(r: Result<Vec<Effect>, ProgramError>) -> Result<Seq<EffectView>, ProgramError> {
    match r {
        Ok(effects) => Ok(effect_views(effects@)),
        Err(e) => Err(e),
    }
}

/// The asset kind byte names one of the two kinds.
pub open spec fn token_type_known(t: u8) -> bool {
    t == TOKEN_TYPE_SPL || t == TOKEN_TYPE_SOL
}

pub fn validate_token_type(token_type: u8) -> (r: Result<(), ProgramError>)
    ensures
        r is Ok <==> token_type_known(token_type),
        r is Err ==> r == Err::<(), ProgramError>(ProgramError::Custom(RedPacketError::InvalidTokenType)),
{
    if token_type == TOKEN_TYPE_SPL || token_type == TOKEN_TYPE_SOL {
        Ok(())
    } else {
        Err(ProgramError::Custom(RedPacketError::InvalidTokenType))
    }
}

/// Why an account is not a packet record of the program, if it is not.
pub open spec fn packet_account_check(a: AccountState, program: Seq<u8>) -> Option<ProgramError> {
    if a.owner != program {
        Some(ProgramError::Custom(RedPacketError::InvalidAccountOwner))
    } else if a.data.len() < 71 {
        Some(ProgramError::InvalidAccountData)
    } else if a.data[0] != REDPACKET_DISCRIMINATOR {
        Some(ProgramError::Custom(RedPacketError::InvalidDiscriminator))
    } else if !packet_fits(a.data) {
        Some(ProgramError::InvalidAccountData)
    } else {
        None
    }
}

/// Checks that an account is a packet record owned by the program, long
/// enough for the recipients it declares.
pub fn validate_redpacket(account: &Account, program_id: &Address) -> (r: Result<(), ProgramError>)
    ensures
        match packet_account_check(account@, program_id@) {
            Some(e) => r == Err::<(), ProgramError>(e),
            None => r is Ok,
        },
{
    if !account.owner.same_as(program_id) {
        return Err(ProgramError::Custom(RedPacketError::InvalidAccountOwner));
    }
    if account.data.len() < REDPACKET_BASE_SIZE {
        return Err(ProgramError::InvalidAccountData);
    }
    if account.data[0] != REDPACKET_DISCRIMINATOR {
        return Err(ProgramError::Custom(RedPacketError::InvalidDiscriminator));
    }
    if account.data.len() < redpacket_size(account.data[57]) {
        return Err(ProgramError::InvalidAccountData);
    }
    Ok(())
}

/// Why an account is not an initialised treasury of the program, if it is not.
pub open spec fn treasury_account_check(a: AccountState, program: Seq<u8>) -> Option<ProgramError> {
    if a.owner != program {
        Some(ProgramError::Custom(RedPacketError::InvalidAccountOwner))
    } else if a.data.len() < 43 {
        Some(ProgramError::InvalidAccountData)
    } else if a.data[0] != TREASURY_DISCRIMINATOR {
        Some(ProgramError::Custom(RedPacketError::TreasuryNotInitialized))
    } else {
        None
    }
}

/// Checks that an account is an initialised treasury owned by the program.
pub fn validate_treasury(account: &Account, program_id: &Address) -> (r: Result<(), ProgramError>)
    ensures
        match treasury_account_check(account@, program_id@) {
            Some(e) => r == Err::<(), ProgramError>(e),
            None => r is Ok,
        },
{
    if !account.owner.same_as(program_id) {
        return Err(ProgramError::Custom(RedPacketError::InvalidAccountOwner));
    }
    if account.data.len() < TREASURY_SIZE {
        return Err(ProgramError::InvalidAccountData);
    }
    if account.data[0] != TREASURY_DISCRIMINATOR {
        return Err(ProgramError::Custom(RedPacketError::TreasuryNotInitialized));
    }
    Ok(())
}

} // verus!
