use vault::error::{CustomError, VaultError};
use vault::instruction::{read_u64_le, ProgramInstruction, RewardArgs};
use vault::pda::{
    find_vault_address, key_at, keys_equal, vault_seed_bytes, AccountDeserialize, Discriminator,
    VaultAccount,
};
use vault::processors::{process_init, process_reward, AccountView, InitPlan};
use vault::{id, process_instruction, Action};

const TOKEN_PROGRAM: [u8; 32] = [
    6, 221, 246, 225, 215, 101, 161, 147, 217, 203, 225, 70, 206, 235, 121, 172, 28, 180, 133,
    237, 95, 91, 55, 145, 58, 140, 245, 133, 126, 255, 0, 169,
];

fn key(b: u8) -> [u8; 32] {
    [b; 32]
}

fn account(k: [u8; 32], owner: [u8; 32], is_signer: bool, data: Vec<u8>) -> AccountView {
    AccountView { key: k, owner, is_signer, data }
}

fn vault_key() -> [u8; 32] {
    find_vault_address(&id()).unwrap().0
}

fn token_account_data(amount: u64) -> Vec<u8> {
    let mut d = vec![0u8; 165];
    d[64..72].copy_from_slice(&amount.to_le_bytes());
    d[108] = 1;
    d
}

fn init_accounts(authority: [u8; 32], signer: bool, mint: [u8; 32], vault: [u8; 32], vault_data: Vec<u8>) -> Vec<AccountView> {
    vec![
        account(authority, key(0), signer, vec![]),
        account(mint, key(0), false, vec![]),
        account(vault, id(), false, vault_data),
        account(key(20), key(0), false, vec![]),
        account(key(21), key(0), false, vec![]),
        account(TOKEN_PROGRAM, key(0), false, vec![]),
        account(key(23), key(0), false, vec![]),
        account(key(24), key(0), false, vec![]),
    ]
}

/// Runs an accepted Init and returns the vault region it leaves behind.
fn initialized_region(authority: [u8; 32], mint: [u8; 32]) -> Vec<u8> {
    let plan = process_init(&id(), &init_accounts(authority, true, mint, vault_key(), vec![])).unwrap();
    let mut region = vec![0u8; plan.space as usize];
    plan.record.init_region(&mut region).unwrap();
    region
}

fn reward_accounts(authority: [u8; 32], mint: [u8; 32], region: Vec<u8>, balance: u64) -> Vec<AccountView> {
    vec![
        account(authority, key(0), true, vec![]),
        account(mint, key(0), false, vec![]),
        account(vault_key(), id(), false, region),
        account(key(30), TOKEN_PROGRAM, false, token_account_data(balance)),
        account(key(31), TOKEN_PROGRAM, false, token_account_data(0)),
        account(TOKEN_PROGRAM, key(0), false, vec![]),
    ]
}

fn reward(accounts: &Vec<AccountView>, amount: u64) -> Result<vault::processors::TransferPlan, VaultError> {
    process_reward(&id(), accounts, RewardArgs { amount })
}

#[test]
fn derivation_is_repeatable() {
    let a = find_vault_address(&id());
    let b = find_vault_address(&id());
    assert!(a.is_some());
    assert_eq!(a, b);
    assert_eq!(vault_seed_bytes(), b"vault".to_vec());
}

#[test]
fn derivation_depends_on_program() {
    let a = find_vault_address(&id()).unwrap();
    let b = find_vault_address(&key(9)).unwrap();
    assert_ne!(a.0, b.0);
}

#[test]
fn init_then_region_decodes_to_record() {
    let x = key(1);
    let m = key(2);
    let plan = process_init(&id(), &init_accounts(x, true, m, vault_key(), vec![])).unwrap();
    assert_eq!(
        plan,
        InitPlan {
            payer: x,
            vault: vault_key(),
            bump: find_vault_address(&id()).unwrap().1,
            space: 72,
            record: VaultAccount { mint: m, authority: x },
            token_program: TOKEN_PROGRAM,
        }
    );
    let region = initialized_region(x, m);
    assert_eq!(region.len(), 72);
    assert_eq!(region[0], 1);
    let decoded = VaultAccount::try_from_bytes(&region).unwrap();
    assert_eq!(decoded, VaultAccount { mint: m, authority: x });
}

#[test]
fn second_init_is_refused() {
    let region = initialized_region(key(1), key(2));
    let again = init_accounts(key(1), true, key(2), vault_key(), region.clone());
    assert_eq!(process_init(&id(), &again), Err(VaultError::Custom(CustomError::AlreadyInitialized)));
    let other = init_accounts(key(7), true, key(8), vault_key(), region);
    assert_eq!(process_init(&id(), &other), Err(VaultError::Custom(CustomError::AlreadyInitialized)));
}

#[test]
fn init_needs_signer() {
    let accounts = init_accounts(key(1), false, key(2), vault_key(), vec![]);
    assert_eq!(process_init(&id(), &accounts), Err(VaultError::MissingRequiredSignature));
}

#[test]
fn init_needs_derived_address() {
    let accounts = init_accounts(key(1), true, key(2), key(3), vec![]);
    assert_eq!(process_init(&id(), &accounts), Err(VaultError::Custom(CustomError::IncorrectPdaKey)));
}

#[test]
fn init_needs_all_accounts() {
    let mut accounts = init_accounts(key(1), true, key(2), vault_key(), vec![]);
    accounts.pop();
    assert_eq!(process_init(&id(), &accounts), Err(VaultError::NotEnoughAccountKeys));
}

#[test]
fn reward_plans_transfer_of_requested_amount() {
    let x = key(1);
    let m = key(2);
    let accounts = reward_accounts(x, m, initialized_region(x, m), 500);
    let plan = reward(&accounts, 100).unwrap();
    assert_eq!(plan.amount, 100);
    assert_eq!(plan.source, key(30));
    assert_eq!(plan.destination, key(31));
    assert_eq!(plan.owner, vault_key());
    assert_eq!(plan.bump, find_vault_address(&id()).unwrap().1);
    assert_eq!(plan.token_program, TOKEN_PROGRAM);
}

#[test]
fn reward_of_whole_balance_is_accepted() {
    let accounts = reward_accounts(key(1), key(2), initialized_region(key(1), key(2)), 500);
    assert_eq!(reward(&accounts, 500).unwrap().amount, 500);
}

#[test]
fn reward_by_other_authority_is_unauthorized() {
    let region = initialized_region(key(1), key(2));
    let accounts = reward_accounts(key(5), key(2), region, 500);
    assert_eq!(reward(&accounts, 100), Err(VaultError::Unauthorized));
}

#[test]
fn reward_of_zero_is_invalid() {
    let accounts = reward_accounts(key(1), key(2), initialized_region(key(1), key(2)), 500);
    assert_eq!(reward(&accounts, 0), Err(VaultError::Custom(CustomError::InvalidAmount)));
}

#[test]
fn reward_over_balance_is_insufficient() {
    let accounts = reward_accounts(key(1), key(2), initialized_region(key(1), key(2)), 500);
    assert_eq!(reward(&accounts, 501), Err(VaultError::Custom(CustomError::InsufficientFunds)));
}

#[test]
fn reward_on_empty_vault_is_not_initialized() {
    let accounts = reward_accounts(key(1), key(2), vec![], 500);
    assert_eq!(reward(&accounts, 100), Err(VaultError::Custom(CustomError::NotInitialized)));
}

#[test]
fn reward_with_other_mint_is_refused() {
    let accounts = reward_accounts(key(1), key(9), initialized_region(key(1), key(2)), 500);
    assert_eq!(reward(&accounts, 100), Err(VaultError::Custom(CustomError::DoesNotSupportMint)));
}

#[test]
fn reward_needs_token_program_accounts() {
    let mut accounts = reward_accounts(key(1), key(2), initialized_region(key(1), key(2)), 500);
    accounts[4].owner = key(3);
    assert_eq!(reward(&accounts, 100), Err(VaultError::Custom(CustomError::InvalidTokenAccount)));
    let mut accounts = reward_accounts(key(1), key(2), initialized_region(key(1), key(2)), 500);
    accounts[3].owner = key(3);
    assert_eq!(reward(&accounts, 100), Err(VaultError::Custom(CustomError::InvalidTokenAccount)));
}

#[test]
fn reward_needs_signer() {
    let mut accounts = reward_accounts(key(1), key(2), initialized_region(key(1), key(2)), 500);
    accounts[0].is_signer = false;
    assert_eq!(reward(&accounts, 100), Err(VaultError::MissingRequiredSignature));
}

#[test]
fn reward_needs_derived_address() {
    let mut accounts = reward_accounts(key(1), key(2), initialized_region(key(1), key(2)), 500);
    accounts[2].key = key(4);
    assert_eq!(reward(&accounts, 100), Err(VaultError::Custom(CustomError::IncorrectPdaKey)));
}

#[test]
fn reward_on_foreign_region_is_type_mismatch() {
    let mut region = initialized_region(key(1), key(2));
    region[0] = 7;
    let accounts = reward_accounts(key(1), key(2), region, 500);
    assert_eq!(reward(&accounts, 100), Err(VaultError::TypeMismatch));
}

#[test]
fn reward_on_short_region_is_corrupt() {
    let mut region = initialized_region(key(1), key(2));
    region.pop();
    let accounts = reward_accounts(key(1), key(2), region, 500);
    assert_eq!(reward(&accounts, 100), Err(VaultError::Corrupt));
}

#[test]
fn reward_reads_token_account_state() {
    let region = initialized_region(key(1), key(2));
    let mut accounts = reward_accounts(key(1), key(2), region.clone(), 500);
    accounts[3].data[108] = 0;
    assert_eq!(reward(&accounts, 100), Err(VaultError::UninitializedAccount));
    let mut accounts = reward_accounts(key(1), key(2), region.clone(), 500);
    accounts[3].data[108] = 3;
    assert_eq!(reward(&accounts, 100), Err(VaultError::InvalidAccountData));
    let mut accounts = reward_accounts(key(1), key(2), region.clone(), 500);
    accounts[3].data[72] = 2;
    assert_eq!(reward(&accounts, 100), Err(VaultError::InvalidAccountData));
    let mut accounts = reward_accounts(key(1), key(2), region, 500);
    accounts[3].data.push(0);
    assert_eq!(reward(&accounts, 100), Err(VaultError::InvalidAccountData));
}

#[test]
fn reward_needs_all_accounts() {
    let mut accounts = reward_accounts(key(1), key(2), initialized_region(key(1), key(2)), 500);
    accounts.truncate(5);
    assert_eq!(reward(&accounts, 100), Err(VaultError::NotEnoughAccountKeys));
}

#[test]
fn record_round_trips_through_region() {
    let record = VaultAccount { mint: key(11), authority: key(12) };
    let bytes = record.to_bytes();
    assert_eq!(bytes.len(), 64);
    assert_eq!(&bytes[0..32], &key(11));
    assert_eq!(&bytes[32..64], &key(12));
    let mut region = vec![0u8; 72];
    region[3] = 9;
    record.init_region(&mut region).unwrap();
    assert_eq!(region[3], 9);
    assert_eq!(VaultAccount::try_from_bytes(&region), Ok(record));
}

#[test]
fn foreign_discriminator_is_type_mismatch() {
    let mut region = vec![0u8; 72];
    assert_eq!(VaultAccount::try_from_bytes(&region), Err(VaultError::TypeMismatch));
    region[0] = 2;
    assert_eq!(VaultAccount::try_from_bytes(&region), Err(VaultError::TypeMismatch));
    assert_eq!(VaultAccount::try_from_bytes(&[5u8]), Err(VaultError::TypeMismatch));
    assert_eq!(VaultAccount::try_from_bytes(&[]), Err(VaultError::Corrupt));
    assert_eq!(VaultAccount::discriminator(), 1);
    assert_eq!(VaultAccount::size(), 64);
}

#[test]
fn region_of_wrong_length_is_not_written() {
    let record = VaultAccount { mint: key(11), authority: key(12) };
    let mut region = vec![4u8; 71];
    assert_eq!(record.init_region(&mut region), Err(VaultError::Corrupt));
    assert_eq!(region, vec![4u8; 71]);
}

#[test]
fn unpack_decodes_commands() {
    assert_eq!(ProgramInstruction::unpack(&[0]), Ok(ProgramInstruction::Init));
    let mut data = vec![1u8];
    data.extend_from_slice(&100u64.to_le_bytes());
    assert_eq!(ProgramInstruction::unpack(&data), Ok(ProgramInstruction::Reward(RewardArgs { amount: 100 })));
    assert_eq!(ProgramInstruction::unpack(&[]), Err(VaultError::InvalidInstructionData));
    assert_eq!(ProgramInstruction::unpack(&[2]), Err(VaultError::InvalidInstructionData));
    assert_eq!(ProgramInstruction::unpack(&[1, 0, 0]), Err(VaultError::InvalidInstructionData));
    assert_eq!(ProgramInstruction::unpack(&[0, 1]), Err(VaultError::InvalidInstructionData));
}

#[test]
fn reads_little_endian_amounts() {
    let data = [0xffu8, 1, 2, 3, 4, 5, 6, 7, 0x80];
    assert_eq!(read_u64_le(&data, 1), 0x8007060504030201);
    assert_eq!(read_u64_le(&[0xff; 8], 0), u64::MAX);
}

#[test]
fn keys_compare_bytewise() {
    assert!(keys_equal(&key(1), &key(1)));
    let mut k = key(1);
    k[31] = 2;
    assert!(!keys_equal(&key(1), &k));
    let data: Vec<u8> = (0..40).collect();
    let expected: Vec<u8> = (4..36).collect();
    assert_eq!(key_at(&data, 4).to_vec(), expected);
}

#[test]
fn error_codes_follow_declaration_order() {
    assert_eq!(CustomError::IncorrectPdaKey.code(), 0);
    assert_eq!(CustomError::AlreadyInitialized.code(), 1);
    assert_eq!(CustomError::InsufficientFunds.code(), 6);
}

#[test]
fn instruction_checks_program_id() {
    let accounts = init_accounts(key(1), true, key(2), vault_key(), vec![]);
    assert_eq!(process_instruction(&key(3), &accounts, &[0]), Err(VaultError::IncorrectProgramId));
    assert_eq!(process_instruction(&id(), &accounts, &[9]), Err(VaultError::InvalidInstructionData));
}

#[test]
fn instruction_dispatches_both_commands() {
    let x = key(1);
    let m = key(2);
    let accounts = init_accounts(x, true, m, vault_key(), vec![]);
    match process_instruction(&id(), &accounts, &[0]) {
        Ok(Action::Init(plan)) => assert_eq!(plan.record, VaultAccount { mint: m, authority: x }),
        other => panic!("unexpected {:?}", other),
    }
    let accounts = reward_accounts(x, m, initialized_region(x, m), 500);
    let mut data = vec![1u8];
    data.extend_from_slice(&100u64.to_le_bytes());
    match process_instruction(&id(), &accounts, &data) {
        Ok(Action::Reward(plan)) => assert_eq!(plan.amount, 100),
        other => panic!("unexpected {:?}", other),
    }
}

#[test]
fn reward_on_zeroed_region_is_type_mismatch() {
    let accounts = reward_accounts(key(1), key(2), vec![0u8; 72], 500);
    assert_eq!(reward(&accounts, 100), Err(VaultError::TypeMismatch));
    let accounts = reward_accounts(key(0), key(0), vec![0u8; 72], 500);
    assert_eq!(reward(&accounts, 100), Err(VaultError::TypeMismatch));
}

#[test]
fn program_id_is_deployed_address() {
    let expected = "PLAYcZHpkkcLiWY2Csw6bcUbbHh85T3tCqnwsA4qBwh"
        .parse::<solana_program::pubkey::Pubkey>()
        .unwrap()
        .to_bytes();
    assert_eq!(id(), expected);
}

#[test]
fn token_program_is_spl_token() {
    assert_eq!(TOKEN_PROGRAM, spl_token::id().to_bytes());
}
