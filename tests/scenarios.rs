use redpacket::account::{Account, Effect};
use redpacket::address::Address;
use redpacket::client::{build_create_data, find_red_packet_pda, find_treasury_pda_sol, find_vault_pda};
use redpacket::constants::{rent_exempt, Config, TREASURY_SIZE};
use redpacket::entry::process_instruction;
use redpacket::error::{ProgramError, RedPacketError};
use redpacket::record::decode_red_packet;
use redpacket::state::{get_sol_fees_collected, init_treasury, set_sol_fees_collected};

const NOW: i64 = 1_700_000_000;

fn key(b: u8) -> Address {
    Address::new([b; 32])
}

fn config() -> Config {
    Config { program_id: key(7), admin: key(9), token_program: key(6) }
}

fn account(address: Address, owner: Address, lamports: u64, data: Vec<u8>, is_signer: bool) -> Account {
    Account { address, owner, lamports, data, is_signer }
}

fn native_treasury(cfg: &Config, lamports: u64, fees: u64) -> Account {
    let (addr, bump) = find_treasury_pda_sol(&cfg.program_id).unwrap();
    let mut data = vec![0u8; TREASURY_SIZE];
    init_treasury(&mut data, bump, 0, &[0xFF; 32]);
    set_sol_fees_collected(&mut data, fees);
    account(addr, cfg.program_id, lamports, data, false)
}

/// Accounts and payload of a native Create of `total` over `n` even slots.
fn native_create(cfg: &Config, creator: Address, id: u64, total: u64, n: u8) -> (Vec<Account>, Vec<u8>) {
    let (rp, rp_bump) = find_red_packet_pda(&creator, id, &cfg.program_id).unwrap();
    let (vault, vault_bump) = find_vault_pda(&creator, id, &cfg.program_id).unwrap();
    let accounts = vec![
        account(creator, key(0), 10_000_000_000, vec![], true),
        account(rp, key(0), 0, vec![], false),
        account(vault, key(0), 0, vec![], false),
        native_treasury(cfg, rent_exempt(TREASURY_SIZE), 0),
        account(key(0), key(0), 1, vec![], false),
    ];
    let data = build_create_data(id, total, n, 0, NOW + 3600, rp_bump, vault_bump, None);
    (accounts, data)
}

fn written(effects: &[Effect], index: usize) -> Vec<u8> {
    for e in effects {
        if let Effect::WriteData { account, data } = e {
            if *account == index {
                return data.clone();
            }
        }
    }
    panic!("no write to account {index}");
}

/// A created packet at rest: the accounts after Create's effects.
fn created_packet(cfg: &Config, creator: Address, total: u64, n: u8) -> Vec<Account> {
    let (mut accounts, data) = native_create(cfg, creator, 1, total, n);
    let effects = process_instruction(cfg, &accounts, &data, NOW).unwrap();
    accounts[1].owner = cfg.program_id;
    accounts[1].data = written(&effects, 1);
    accounts[1].lamports = rent_exempt(accounts[1].data.len());
    accounts[2].owner = cfg.program_id;
    accounts[2].lamports = rent_exempt(0) + total;
    accounts
}

#[test]
fn create_native_even_packet() {
    let cfg = config();
    let creator = key(1);
    let (accounts, data) = native_create(&cfg, creator, 1, 1_000_000_000, 5);
    let effects = process_instruction(&cfg, &accounts, &data, NOW).unwrap();
    assert_eq!(effects.len(), 6);
    assert!(matches!(effects[0], Effect::CreateAccount { from: 0, to: 1, space: 271, .. }));
    assert!(matches!(effects[2], Effect::SystemTransfer { from: 0, to: 2, amount: 1_000_000_000 }));
    assert!(matches!(effects[3], Effect::SystemTransfer { from: 0, to: 3, amount: 1_000_000 }));
    assert_eq!(get_sol_fees_collected(&written(&effects, 3)), 1_000_000);
    let rp = decode_red_packet(&written(&effects, 1)).unwrap();
    assert_eq!(rp.remaining_amount, 1_000_000_000);
    assert_eq!(rp.num_claimed, 0);
    assert_eq!(rp.num_recipients, 5);
    assert_eq!(rp.amounts, vec![200_000_000; 5]);
    assert!(rp.creator.same_as(&creator));
}

#[test]
fn create_rejects_forged_record_address() {
    let cfg = config();
    let (mut accounts, data) = native_create(&cfg, key(1), 1, 1_000_000, 2);
    accounts[1].address = key(3);
    let r = process_instruction(&cfg, &accounts, &data, NOW);
    assert_eq!(r.unwrap_err(), ProgramError::Custom(RedPacketError::InvalidPDA));
}

#[test]
fn create_rejects_past_deadline_and_bad_counts() {
    let cfg = config();
    let (accounts, data) = native_create(&cfg, key(1), 1, 1_000_000, 2);
    let r = process_instruction(&cfg, &accounts, &data, NOW + 3600);
    assert_eq!(r.unwrap_err(), ProgramError::Custom(RedPacketError::Expired));
    let mut too_many = data.clone();
    too_many[18] = 21;
    let r = process_instruction(&cfg, &accounts, &too_many, NOW);
    assert_eq!(r.unwrap_err(), ProgramError::Custom(RedPacketError::InvalidRecipientCount));
    let mut zero = data.clone();
    zero[10..18].copy_from_slice(&0u64.to_le_bytes());
    let r = process_instruction(&cfg, &accounts, &zero, NOW);
    assert_eq!(r.unwrap_err(), ProgramError::Custom(RedPacketError::InvalidAmount));
    let mut mode = data.clone();
    mode[19] = 2;
    let r = process_instruction(&cfg, &accounts, &mode, NOW);
    assert_eq!(r.unwrap_err(), ProgramError::Custom(RedPacketError::InvalidSplitMode));
}

#[test]
fn create_random_split_checks_amounts() {
    let cfg = config();
    let creator = key(1);
    let (accounts, _) = native_create(&cfg, creator, 1, 100, 3);
    let (_, rp_bump) = find_red_packet_pda(&creator, 1, &cfg.program_id).unwrap();
    let (_, vault_bump) = find_vault_pda(&creator, 1, &cfg.program_id).unwrap();
    let good = build_create_data(1, 100, 3, 1, NOW + 10, rp_bump, vault_bump, Some(&[50, 30, 20]));
    let effects = process_instruction(&cfg, &accounts, &good, NOW).unwrap();
    let rp = decode_red_packet(&written(&effects, 1)).unwrap();
    assert_eq!(rp.amounts, vec![50, 30, 20]);
    let short = build_create_data(1, 100, 3, 1, NOW + 10, rp_bump, vault_bump, Some(&[50, 30, 21]));
    let r = process_instruction(&cfg, &accounts, &short, NOW);
    assert_eq!(r.unwrap_err(), ProgramError::Custom(RedPacketError::AmountMismatch));
    let zero = build_create_data(1, 100, 3, 1, NOW + 10, rp_bump, vault_bump, Some(&[100, 0, 0]));
    let r = process_instruction(&cfg, &accounts, &zero, NOW);
    assert_eq!(r.unwrap_err(), ProgramError::Custom(RedPacketError::InvalidAmount));
}

#[test]
fn create_requires_initialised_treasury() {
    let cfg = config();
    let (mut accounts, data) = native_create(&cfg, key(1), 1, 1_000_000, 2);
    accounts[3].data[0] = 0;
    let r = process_instruction(&cfg, &accounts, &data, NOW);
    assert_eq!(r.unwrap_err(), ProgramError::Custom(RedPacketError::TreasuryNotInitialized));
}

fn claim_accounts(packet: &[Account], claimer: Address) -> Vec<Account> {
    vec![
        account(claimer, key(0), 5, vec![], true),
        packet[1].clone(),
        packet[2].clone(),
    ]
}

#[test]
fn claim_pays_next_slot() {
    let cfg = config();
    let packet = created_packet(&cfg, key(1), 1_000_000, 3);
    let accounts = claim_accounts(&packet, key(20));
    let effects = process_instruction(&cfg, &accounts, &[1, 1], NOW).unwrap();
    assert!(matches!(effects[0], Effect::MoveLamports { from: 2, to: 0, amount: 333_333 }));
    let rp = decode_red_packet(&written(&effects, 1)).unwrap();
    assert_eq!(rp.num_claimed, 1);
    assert_eq!(rp.remaining_amount, 666_667);
    assert!(rp.claimers[0].same_as(&key(20)));
}

#[test]
fn claim_after_deadline_fails_with_expired() {
    let cfg = config();
    let packet = created_packet(&cfg, key(1), 1_000_000, 3);
    let accounts = claim_accounts(&packet, key(20));
    let r = process_instruction(&cfg, &accounts, &[1, 1], NOW + 3600);
    assert_eq!(r.unwrap_err(), ProgramError::Custom(RedPacketError::Expired));
    let rp = decode_red_packet(&accounts[1].data).unwrap();
    assert_eq!(rp.num_claimed, 0);
    assert_eq!(rp.remaining_amount, 1_000_000);
}

#[test]
fn claim_twice_is_rejected() {
    let cfg = config();
    let packet = created_packet(&cfg, key(1), 1_000_000, 3);
    let mut accounts = claim_accounts(&packet, key(20));
    let effects = process_instruction(&cfg, &accounts, &[1, 1], NOW).unwrap();
    accounts[1].data = written(&effects, 1);
    let r = process_instruction(&cfg, &accounts, &[1, 1], NOW + 1);
    assert_eq!(r.unwrap_err(), ProgramError::Custom(RedPacketError::AlreadyClaimed));
    let rp = decode_red_packet(&accounts[1].data).unwrap();
    assert_eq!(rp.remaining_amount, 666_667);
    assert_eq!(rp.num_claimed, 1);
}

#[test]
fn claim_on_full_packet_fails() {
    let cfg = config();
    let packet = created_packet(&cfg, key(1), 10, 1);
    let mut accounts = claim_accounts(&packet, key(20));
    let effects = process_instruction(&cfg, &accounts, &[1, 1], NOW).unwrap();
    accounts[1].data = written(&effects, 1);
    accounts[0].address = key(21);
    let r = process_instruction(&cfg, &accounts, &[1, 1], NOW);
    assert_eq!(r.unwrap_err(), ProgramError::Custom(RedPacketError::RedPacketFull));
}

#[test]
fn claim_rejects_substituted_vault() {
    let cfg = config();
    let packet = created_packet(&cfg, key(1), 1_000, 2);
    let mut accounts = claim_accounts(&packet, key(20));
    accounts[2].address = key(30);
    let r = process_instruction(&cfg, &accounts, &[1, 1], NOW);
    assert_eq!(r.unwrap_err(), ProgramError::Custom(RedPacketError::InvalidPDA));
    accounts[0].is_signer = false;
    let r = process_instruction(&cfg, &accounts, &[1, 1], NOW);
    assert_eq!(r.unwrap_err(), ProgramError::MissingRequiredSignature);
}

#[test]
fn close_waits_for_expiry_then_returns_everything() {
    let cfg = config();
    let creator = key(1);
    let packet = created_packet(&cfg, creator, 1_000_000, 3);
    let mut accounts = vec![account(creator, key(0), 100, vec![], true), packet[1].clone(), packet[2].clone()];
    let r = process_instruction(&cfg, &accounts, &[2, 1], NOW);
    assert_eq!(r.unwrap_err(), ProgramError::Custom(RedPacketError::NotExpiredOrFull));
    let effects = process_instruction(&cfg, &accounts, &[2, 1], NOW + 3600).unwrap();
    let vault_lamports = accounts[2].lamports;
    let record_lamports = accounts[1].lamports;
    assert_eq!(vault_lamports, rent_exempt(0) + 1_000_000);
    assert!(matches!(effects[0], Effect::MoveLamports { from: 2, to: 0, amount } if amount == vault_lamports));
    assert!(matches!(effects[1], Effect::MoveLamports { from: 1, to: 0, amount } if amount == record_lamports));
    let wiped = written(&effects, 1);
    assert_eq!(wiped.len(), accounts[1].data.len());
    assert!(wiped.iter().all(|b| *b == 0));
    accounts[0].address = key(2);
    let r = process_instruction(&cfg, &accounts, &[2, 1], NOW + 3600);
    assert_eq!(r.unwrap_err(), ProgramError::Custom(RedPacketError::Unauthorized));
}

#[test]
fn withdraw_native_fees_by_admin() {
    let cfg = config();
    let floor = rent_exempt(TREASURY_SIZE);
    let treasury = native_treasury(&cfg, floor + 5_000, 3_000);
    let accounts = vec![account(cfg.admin, key(0), 0, vec![], true), treasury.clone()];
    let mut data = vec![4, 1];
    data.extend_from_slice(&0u64.to_le_bytes());
    let effects = process_instruction(&cfg, &accounts, &data, NOW).unwrap();
    assert!(matches!(effects[0], Effect::MoveLamports { from: 1, to: 0, amount: 3_000 }));
    assert_eq!(get_sol_fees_collected(&written(&effects, 1)), 0);

    let thin = native_treasury(&cfg, floor + 1_000, 3_000);
    let accounts = vec![account(cfg.admin, key(0), 0, vec![], true), thin];
    let effects = process_instruction(&cfg, &accounts, &data, NOW).unwrap();
    assert!(matches!(effects[0], Effect::MoveLamports { from: 1, to: 0, amount: 1_000 }));

    let mut too_much = vec![4, 1];
    too_much.extend_from_slice(&1_001u64.to_le_bytes());
    let r = process_instruction(&cfg, &accounts, &too_much, NOW);
    assert_eq!(r.unwrap_err(), ProgramError::Custom(RedPacketError::InsufficientTreasuryBalance));
}

#[test]
fn withdraw_by_other_identity_is_refused() {
    let cfg = config();
    let treasury = native_treasury(&cfg, rent_exempt(TREASURY_SIZE) + 5_000, 3_000);
    let accounts = vec![account(key(8), key(0), 0, vec![], true), treasury];
    let mut data = vec![4, 1];
    data.extend_from_slice(&0u64.to_le_bytes());
    let r = process_instruction(&cfg, &accounts, &data, NOW);
    assert_eq!(r.unwrap_err(), ProgramError::Custom(RedPacketError::UnauthorizedAdmin));
}

#[test]
fn unknown_or_empty_instruction_is_rejected() {
    let cfg = config();
    assert_eq!(process_instruction(&cfg, &vec![], &[], NOW).unwrap_err(), ProgramError::InvalidInstructionData);
    assert_eq!(process_instruction(&cfg, &vec![], &[9, 1], NOW).unwrap_err(), ProgramError::InvalidInstructionData);
    assert_eq!(
        process_instruction(&cfg, &vec![], &[1, 5], NOW).unwrap_err(),
        ProgramError::Custom(RedPacketError::InvalidTokenType)
    );
    assert_eq!(
        process_instruction(&cfg, &vec![], &[1, 1], NOW).unwrap_err(),
        ProgramError::Custom(RedPacketError::NotEnoughAccounts)
    );
}
