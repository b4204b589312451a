use redpacket::account::{Account, Effect};
use redpacket::address::Address;
use redpacket::client::{
    build_claim_data, build_close_data, build_create_data, compute_fee, get_status,
    split_from_cuts, ActionError, ClaimAction, CloseAction, CreateAction,
};
use redpacket::client::{find_red_packet_pda, find_vault_pda};
use redpacket::derive::{find_program_address, push_bump, treasury_seed_list, treasury_vault_seed_list};
use redpacket::constants::{redpacket_size, rent_exempt, Config};
use redpacket::entry::process_instruction;
use redpacket::error::{ProgramError, RedPacketError};
use redpacket::record::{decode_red_packet, encode_red_packet, RedPacketAccount};
use redpacket::rules::{check_random_amounts, checked_fee, even_split, withdraw_amount};
use redpacket::state::{
    get_amount_at, get_bump, get_claimer_at, get_creator, get_expires_at, get_id,
    get_num_claimed, get_num_recipients, get_remaining_amount, get_split_mode,
    get_total_amount, get_treasury_bump, get_treasury_mint, get_treasury_vault_bump,
    get_vault_bump, has_claimed, init_redpacket, init_treasury, set_claimer_at,
    set_num_claimed, set_remaining_amount,
};

fn key(b: u8) -> Address {
    Address::new([b; 32])
}

fn sample() -> RedPacketAccount {
    RedPacketAccount {
        creator: key(1),
        id: 42,
        total_amount: 600,
        remaining_amount: 500,
        num_recipients: 3,
        num_claimed: 1,
        split_mode: 1,
        bump: 254,
        vault_bump: 253,
        token_type: 1,
        expires_at: -5,
        amounts: vec![100, 200, 300],
        claimers: vec![key(4), key(0), key(0)],
    }
}

#[test]
fn even_split_of_a_million_over_three() {
    assert_eq!(even_split(1_000_000, 3), vec![333_333, 333_333, 333_334]);
    assert_eq!(even_split(1_000_000, 3).iter().sum::<u64>(), 1_000_000);
    assert_eq!(even_split(7, 1), vec![7]);
    assert_eq!(even_split(u64::MAX, 20).iter().map(|a| *a as u128).sum::<u128>(), u64::MAX as u128);
}

#[test]
fn fee_has_a_floor_of_one() {
    assert_eq!(compute_fee(5), 1);
    assert_eq!(checked_fee(5), Ok(1));
    assert_eq!(compute_fee(1_000_000_000), 1_000_000);
    assert_eq!(checked_fee(1_000_000_000), Ok(1_000_000));
    assert_eq!(checked_fee(u64::MAX), Err(ProgramError::ArithmeticOverflow));
}

#[test]
fn random_amounts_are_checked() {
    assert_eq!(check_random_amounts(6, &[1, 2, 3]), Ok(()));
    assert_eq!(check_random_amounts(7, &[1, 2, 3]), Err(ProgramError::Custom(RedPacketError::AmountMismatch)));
    assert_eq!(check_random_amounts(3, &[3, 0]), Err(ProgramError::Custom(RedPacketError::InvalidAmount)));
    assert_eq!(check_random_amounts(3, &[u64::MAX, 1]), Err(ProgramError::ArithmeticOverflow));
}

#[test]
fn withdrawal_amounts() {
    assert_eq!(withdraw_amount(0, 70), Ok(70));
    assert_eq!(withdraw_amount(30, 70), Ok(30));
    assert_eq!(withdraw_amount(71, 70), Err(ProgramError::Custom(RedPacketError::InsufficientTreasuryBalance)));
    assert_eq!(withdraw_amount(0, 0), Err(ProgramError::Custom(RedPacketError::InsufficientTreasuryBalance)));
}

#[test]
fn record_round_trip() {
    let rp = sample();
    let bytes = encode_red_packet(&rp);
    assert_eq!(bytes.len(), 71 + 40 * 3);
    assert_eq!(bytes[0], 1);
    let back = decode_red_packet(&bytes).unwrap();
    assert!(back.creator.same_as(&rp.creator));
    assert_eq!(back.id, 42);
    assert_eq!(back.total_amount, 600);
    assert_eq!(back.remaining_amount, 500);
    assert_eq!(back.num_claimed, 1);
    assert_eq!(back.split_mode, 1);
    assert_eq!((back.bump, back.vault_bump, back.token_type), (254, 253, 1));
    assert_eq!(back.expires_at, -5);
    assert_eq!(back.amounts, vec![100, 200, 300]);
    assert!(back.claimers[0].same_as(&key(4)));
    assert!(back.claimers[2].same_as(&key(0)));
    assert_eq!(encode_red_packet(&back), bytes);
}

#[test]
fn decode_rejects_short_or_foreign_bytes() {
    let bytes = encode_red_packet(&sample());
    assert_eq!(decode_red_packet(&bytes[..70]).unwrap_err(), ProgramError::InvalidAccountData);
    assert_eq!(decode_red_packet(&bytes[..100]).unwrap_err(), ProgramError::InvalidAccountData);
    let mut foreign = bytes.clone();
    foreign[0] = 2;
    assert_eq!(
        decode_red_packet(&foreign).unwrap_err(),
        ProgramError::Custom(RedPacketError::InvalidDiscriminator)
    );
}

#[test]
fn layout_accessors() {
    let mut data = vec![0u8; redpacket_size(2)];
    assert_eq!(data.len(), 151);
    init_redpacket(&mut data, &[3; 32], 9, 1_000, 2, 0, 250, 249, 1, 1_234, &[400, 600]);
    assert_eq!(get_creator(&data), &[3u8; 32]);
    assert_eq!(get_id(&data), 9);
    assert_eq!(get_total_amount(&data), 1_000);
    assert_eq!(get_remaining_amount(&data), 1_000);
    assert_eq!(get_num_recipients(&data), 2);
    assert_eq!(get_num_claimed(&data), 0);
    assert_eq!(get_split_mode(&data), 0);
    assert_eq!(get_bump(&data), 250);
    assert_eq!(get_vault_bump(&data), 249);
    assert_eq!(get_expires_at(&data), 1_234);
    assert_eq!(get_amount_at(&data, 1), 600);
    assert_eq!(&data[41..49], &1_000u64.to_le_bytes());
    assert!(!has_claimed(&data, 2, 0, &[5; 32]));
    set_claimer_at(&mut data, 2, 0, &[5; 32]);
    set_num_claimed(&mut data, 1);
    set_remaining_amount(&mut data, 600);
    assert_eq!(get_claimer_at(&data, 2, 0), &[5u8; 32]);
    assert!(has_claimed(&data, 2, 1, &[5; 32]));
    assert!(!has_claimed(&data, 2, 1, &[6; 32]));
    assert_eq!(get_remaining_amount(&data), 600);
    assert_eq!(get_num_claimed(&data), 1);
}

#[test]
fn treasury_layout() {
    let mut data = vec![0u8; 43];
    init_treasury(&mut data, 200, 199, &[8; 32]);
    assert_eq!(data[0], 2);
    assert_eq!(get_treasury_bump(&data), 200);
    assert_eq!(get_treasury_vault_bump(&data), 199);
    assert_eq!(get_treasury_mint(&data), &[8u8; 32]);
    assert_eq!(rent_exempt(43), (43 + 128) * 2 * 3480);
}

#[test]
fn error_codes_are_stable() {
    assert_eq!(RedPacketError::InvalidAmount.code(), 0);
    assert_eq!(RedPacketError::AlreadyClaimed.code(), 3);
    assert_eq!(RedPacketError::InvalidPDA.code(), 8);
    assert_eq!(RedPacketError::UnauthorizedAdmin.code(), 13);
    assert_eq!(RedPacketError::InvalidTokenType.code(), 21);
    assert_eq!(ProgramError::from(RedPacketError::Expired), ProgramError::Custom(RedPacketError::Expired));
}

#[test]
fn status_follows_claims_then_deadline() {
    let mut rp = sample();
    rp.expires_at = 100;
    assert_eq!(get_status(&rp, 99), "active");
    assert_eq!(get_status(&rp, 100), "expired");
    rp.num_claimed = 3;
    assert_eq!(get_status(&rp, 50), "fully_claimed");
}

#[test]
fn payload_builders() {
    assert_eq!(build_claim_data(2), vec![1, 1, 2]);
    assert_eq!(build_close_data(), vec![2, 1]);
    let even = build_create_data(5, 1_000, 4, 0, -1, 255, 254, None);
    assert_eq!(even.len(), 30);
    assert_eq!(&even[..2], &[0, 1]);
    assert_eq!(&even[2..10], &5u64.to_le_bytes());
    assert_eq!(&even[10..18], &1_000u64.to_le_bytes());
    assert_eq!((even[18], even[19]), (4, 0));
    assert_eq!(&even[20..28], &(-1i64).to_le_bytes());
    assert_eq!((even[28], even[29]), (255, 254));
    let random = build_create_data(5, 30, 3, 1, 7, 1, 2, Some(&[10, 20]));
    assert_eq!(random.len(), 54);
    assert_eq!(&random[30..38], &10u64.to_le_bytes());
    assert_eq!(&random[38..46], &20u64.to_le_bytes());
    assert_eq!(&random[46..54], &[0u8; 8]);
}

#[test]
fn random_split_from_cut_positions() {
    assert_eq!(split_from_cuts(100, &[30, 70]), vec![30, 40, 30]);
    assert_eq!(split_from_cuts(100, &[0, 0]), vec![1, 1, 98]);
    assert_eq!(split_from_cuts(100, &[]), vec![100]);
    assert_eq!(split_from_cuts(2, &[0, 0, 0]), vec![1, 1, 1, 0]);
}

#[test]
fn actions_decide_before_building() {
    let mut rp = sample();
    rp.expires_at = 100;
    let (data, amount) = ClaimAction.prepare(&rp, 50).unwrap();
    assert_eq!(data, vec![1, 1, 1]);
    assert_eq!(amount, 200);
    assert_eq!(ClaimAction.prepare(&rp, 100).unwrap_err(), ActionError::Expired);
    assert_eq!(ClaimAction.path(), "claim");
    assert_eq!(CloseAction.prepare(&key(2), &key(1), &rp, 200).unwrap_err(), ActionError::NotCreator);
    assert_eq!(CloseAction.prepare(&key(1), &key(1), &rp, 50).unwrap_err(), ActionError::StillActive);
    assert_eq!(CloseAction.prepare(&key(1), &key(1), &rp, 100).unwrap(), vec![2, 1]);
    rp.num_claimed = 3;
    assert_eq!(ClaimAction.prepare(&rp, 50).unwrap_err(), ActionError::FullyClaimed);
    assert_eq!(
        CreateAction.prepare(1_000, 21, 0, 1, 0, 1, 1, 1, None).unwrap_err(),
        ActionError::InvalidRecipients
    );
    assert_eq!(CreateAction.prepare(1_000, 2, 2, 1, 0, 1, 1, 1, None).unwrap_err(), ActionError::InvalidSplitMode);
    assert_eq!(
        CreateAction.prepare(1_000, 2, 0, u64::MAX, 0, 1, 1, 1, None).unwrap_err(),
        ActionError::ExpiryOutOfRange
    );
    let (data, expires_at) = CreateAction.prepare(1_000, 2, 0, 2, 10, 1, 1, 1, None).unwrap();
    assert_eq!(expires_at, 7_210);
    assert_eq!(&data[20..28], &7_210i64.to_le_bytes());
    assert_eq!(ActionError::NotCreator.message(), "Only the red packet creator can close it");
}

fn cfg() -> Config {
    Config { program_id: key(7), admin: key(9), token_program: key(6) }
}

fn acct(address: Address, owner: Address, lamports: u64, data: Vec<u8>, is_signer: bool) -> Account {
    Account { address, owner, lamports, data, is_signer }
}

#[test]
fn token_treasury_lifecycle() {
    let cfg = cfg();
    let mint = key(40);
    let (treasury, t_bump) = find_program_address(&treasury_seed_list(&mint), &cfg.program_id).unwrap();
    let (tvault, v_bump) = find_program_address(&treasury_vault_seed_list(&mint), &cfg.program_id).unwrap();
    let mut seeds = treasury_seed_list(&mint);
    push_bump(&mut seeds, t_bump);
    assert_eq!(seeds.len(), 3);
    let accounts = vec![
        acct(key(1), key(0), 1_000_000, vec![], true),
        acct(treasury, key(0), 0, vec![], false),
        acct(tvault, key(0), 0, vec![], false),
        acct(mint, key(6), 0, vec![], false),
        acct(key(6), key(0), 1, vec![], false),
        acct(key(0), key(0), 1, vec![], false),
    ];
    let effects = process_instruction(&cfg, &accounts, &[3, 0, t_bump, v_bump], 0).unwrap();
    assert_eq!(effects.len(), 4);
    assert!(matches!(effects[0], Effect::CreateAccount { from: 0, to: 1, space: 43, .. }));
    assert!(matches!(effects[2], Effect::CreateAccount { from: 0, to: 2, space: 165, .. }));
    assert!(matches!(effects[3], Effect::InitializeTokenAccount { account: 2, mint: 3, .. }));
    let tdata = match &effects[1] {
        Effect::WriteData { account: 1, data } => data.clone(),
        _ => panic!("treasury not written"),
    };
    assert_eq!(get_treasury_mint(&tdata), &[40u8; 32]);

    let mut funded = accounts.clone();
    funded[1].lamports = 1;
    let r = process_instruction(&cfg, &funded, &[3, 0, t_bump, v_bump], 0);
    assert_eq!(r.unwrap_err(), ProgramError::Custom(RedPacketError::TreasuryAlreadyInitialized));

    let mut vault_data = vec![0u8; 165];
    vault_data[64..72].copy_from_slice(&777u64.to_le_bytes());
    let withdraw_accounts = vec![
        acct(cfg.admin, key(0), 0, vec![], true),
        acct(key(50), key(6), 0, vec![], false),
        acct(treasury, cfg.program_id, 1, tdata.clone(), false),
        acct(tvault, key(6), 1, vault_data, false),
        acct(key(6), key(0), 1, vec![], false),
    ];
    let mut data = vec![4, 0];
    data.extend_from_slice(&0u64.to_le_bytes());
    let effects = process_instruction(&cfg, &withdraw_accounts, &data, 0).unwrap();
    assert_eq!(effects.len(), 1);
    assert!(matches!(effects[0], Effect::TokenTransfer { from: 3, to: 1, authority: 2, amount: 777, .. }));

    let creator = key(1);
    let (rp, rp_bump) = find_red_packet_pda(&creator, 3, &cfg.program_id).unwrap();
    assert!(!rp.same_as(&creator));
    let (vault, vault_bump) = find_vault_pda(&creator, 3, &cfg.program_id).unwrap();
    let create_accounts = vec![
        acct(creator, key(0), 1_000_000, vec![], true),
        acct(key(51), key(6), 0, vec![], false),
        acct(rp, key(0), 0, vec![], false),
        acct(vault, key(0), 0, vec![], false),
        acct(treasury, cfg.program_id, 1, tdata, false),
        acct(tvault, key(6), 1, vec![0u8; 165], false),
        acct(mint, key(6), 0, vec![], false),
        acct(key(6), key(0), 1, vec![], false),
        acct(key(0), key(0), 1, vec![], false),
    ];
    let mut body = build_create_data(3, 50_000, 2, 0, 100, rp_bump, vault_bump, None);
    body[1] = 0;
    let effects = process_instruction(&cfg, &create_accounts, &body, 0).unwrap();
    assert!(matches!(effects[3], Effect::TokenTransfer { from: 1, to: 3, authority: 0, amount: 50_000, .. }));
    assert!(matches!(effects[4], Effect::TokenTransfer { from: 1, to: 5, authority: 0, amount: 50, .. }));
    let mut wrong_mint = create_accounts.clone();
    wrong_mint[6].address = key(41);
    let r = process_instruction(&cfg, &wrong_mint, &body, 0);
    assert_eq!(r.unwrap_err(), ProgramError::Custom(RedPacketError::InvalidMint));
}

#[test]
fn token_packet_claim_and_close() {
    let cfg = cfg();
    let creator = key(1);
    let mint = key(40);
    let (treasury, t_bump) = find_program_address(&treasury_seed_list(&mint), &cfg.program_id).unwrap();
    let mut tdata = vec![0u8; 43];
    init_treasury(&mut tdata, t_bump, 0, &[40; 32]);
    let (rp, rp_bump) = find_red_packet_pda(&creator, 8, &cfg.program_id).unwrap();
    let (vault, vault_bump) = find_vault_pda(&creator, 8, &cfg.program_id).unwrap();
    let create_accounts = vec![
        acct(creator, key(0), 1_000_000, vec![], true),
        acct(key(51), key(6), 0, vec![], false),
        acct(rp, key(0), 0, vec![], false),
        acct(vault, key(0), 0, vec![], false),
        acct(treasury, cfg.program_id, 1, tdata, false),
        acct(key(52), key(6), 1, vec![0u8; 165], false),
        acct(mint, key(6), 0, vec![], false),
        acct(key(6), key(0), 1, vec![], false),
        acct(key(0), key(0), 1, vec![], false),
    ];
    let mut body = build_create_data(8, 90, 2, 0, 100, rp_bump, vault_bump, None);
    body[1] = 0;
    let effects = process_instruction(&cfg, &create_accounts, &body, 0).unwrap();
    let record = match &effects[5] {
        Effect::WriteData { account: 2, data } => data.clone(),
        _ => panic!("record not written"),
    };
    assert_eq!(decode_red_packet(&record).unwrap().token_type, 0);

    let claim_accounts = vec![
        acct(key(20), key(0), 0, vec![], true),
        acct(key(53), key(6), 0, vec![], false),
        acct(rp, cfg.program_id, rent_exempt(record.len()), record.clone(), false),
        acct(vault, key(6), 1, vec![0u8; 165], false),
        acct(key(6), key(0), 1, vec![], false),
    ];
    let effects = process_instruction(&cfg, &claim_accounts, &[1, 0], 50).unwrap();
    assert!(matches!(&effects[0], Effect::TokenTransfer { from: 3, to: 1, authority: 2, amount: 45, seeds } if seeds.len() == 4));
    let r = process_instruction(&cfg, &claim_accounts, &[1, 1], 50);
    assert_eq!(r.unwrap_err(), ProgramError::Custom(RedPacketError::InvalidAccountOwner));
    let r = process_instruction(&cfg, &claim_accounts[..4].to_vec(), &[1, 0], 50);
    assert_eq!(r.unwrap_err(), ProgramError::Custom(RedPacketError::NotEnoughAccounts));
    let mut wrong_kind = claim_accounts.clone();
    wrong_kind.truncate(3);
    wrong_kind[1] = claim_accounts[2].clone();
    wrong_kind[2] = claim_accounts[3].clone();
    let r = process_instruction(&cfg, &wrong_kind, &[1, 1], 50);
    assert_eq!(r.unwrap_err(), ProgramError::Custom(RedPacketError::InvalidTokenType));

    let mut close_accounts = claim_accounts.clone();
    close_accounts[0] = acct(creator, key(0), 0, vec![], true);
    let effects = process_instruction(&cfg, &close_accounts, &[2, 0], 100).unwrap();
    assert_eq!(effects.len(), 4);
    assert!(matches!(effects[0], Effect::TokenTransfer { from: 3, to: 1, authority: 2, amount: 90, .. }));
    assert!(matches!(effects[1], Effect::CloseTokenAccount { account: 3, destination: 0, authority: 2, .. }));
    assert!(matches!(effects[2], Effect::MoveLamports { from: 2, to: 0, .. }));
    let r = process_instruction(&cfg, &close_accounts, &[2, 0], 99);
    assert_eq!(r.unwrap_err(), ProgramError::Custom(RedPacketError::NotExpiredOrFull));
}
