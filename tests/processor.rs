use pookie_nft_staking::account::AccountState;
use pookie_nft_staking::address::{find_program_authority, find_stake_account_address};
use pookie_nft_staking::processor::{
    claim_rewards, process_instruction, stake_nft, unstake_nft, CreateStakeAccount,
    InstructionPlan, UnstakePlan,
};
use pookie_nft_staking::reward::RewardConfig;
use pookie_nft_staking::state::StakeAccount;
use pookie_nft_staking::token::validate_token_account;
use pookie_nft_staking::{ProgramError, StakingError};

const PROGRAM: [u8; 32] = [10u8; 32];
const TOKEN_PROGRAM: [u8; 32] = [11u8; 32];
const SYSTEM_PROGRAM: [u8; 32] = [0u8; 32];
const USER: [u8; 32] = [12u8; 32];
const MINT: [u8; 32] = [13u8; 32];
const REWARD_MINT: [u8; 32] = [14u8; 32];
const RENT: u64 = 1_454_640;
const T0: i64 = 1_700_000_000;

fn plain(key: [u8; 32]) -> AccountState {
    AccountState { key, owner: SYSTEM_PROGRAM, is_signer: false, lamports: 0, data: Vec::new() }
}

fn token_account(key: [u8; 32], mint: [u8; 32], owner: [u8; 32], amount: u64) -> AccountState {
    let mut data = Vec::new();
    data.extend_from_slice(&mint);
    data.extend_from_slice(&owner);
    data.extend_from_slice(&amount.to_le_bytes());
    data.resize(165, 0);
    AccountState { key, owner: TOKEN_PROGRAM, is_signer: false, lamports: 2_039_280, data }
}

fn user(lamports: u64) -> AccountState {
    AccountState { key: USER, owner: SYSTEM_PROGRAM, is_signer: true, lamports, data: Vec::new() }
}

fn stake_key() -> ([u8; 32], u8) {
    find_stake_account_address(&MINT, &USER, &PROGRAM).unwrap()
}

fn stake_accounts(stake_data: Vec<u8>, stake_lamports: u64) -> Vec<AccountState> {
    let mut stake = plain(stake_key().0);
    stake.owner = PROGRAM;
    stake.data = stake_data;
    stake.lamports = stake_lamports;
    vec![
        user(10_000_000),
        token_account([20u8; 32], MINT, USER, 1),
        plain(MINT),
        stake,
        plain(TOKEN_PROGRAM),
        plain([30u8; 32]),
        plain(SYSTEM_PROGRAM),
        plain([31u8; 32]),
    ]
}

fn live_record(last_claim_time: i64) -> StakeAccount {
    StakeAccount {
        is_initialized: true,
        owner: USER,
        nft_mint: MINT,
        stake_time: T0,
        last_claim_time,
    }
}

fn claim_accounts(record: StakeAccount, treasury_amount: u64) -> Vec<AccountState> {
    let authority = find_program_authority(&PROGRAM).unwrap().0;
    let mut accounts = stake_accounts(record.to_bytes(), RENT);
    accounts.truncate(4);
    accounts.push(token_account([21u8; 32], REWARD_MINT, USER, 0));
    accounts.push(token_account([22u8; 32], REWARD_MINT, authority, treasury_amount));
    accounts.push(plain(REWARD_MINT));
    accounts.push(plain(TOKEN_PROGRAM));
    accounts.push(plain(authority));
    accounts.push(plain([31u8; 32]));
    accounts
}

#[test]
fn stake_fresh_account_allocates_and_writes_record() {
    let accounts = stake_accounts(Vec::new(), 0);
    let plan = stake_nft(&PROGRAM, &accounts, T0, RENT).unwrap();
    assert_eq!(plan.create, Some(CreateStakeAccount { lamports: RENT, space: 81, bump: stake_key().1 }));
    assert_eq!(plan.record, live_record(T0));
}

#[test]
fn stake_reuses_uninitialized_account() {
    let accounts = stake_accounts(vec![0u8; 81], RENT);
    let plan = stake_nft(&PROGRAM, &accounts, T0 + 5, RENT).unwrap();
    assert_eq!(plan.create, None);
    assert_eq!(plan.record.stake_time, T0 + 5);
    assert_eq!(plan.record.last_claim_time, T0 + 5);
}

#[test]
fn stake_twice_fails_already_initialized() {
    let accounts = stake_accounts(Vec::new(), 0);
    let plan = stake_nft(&PROGRAM, &accounts, T0, RENT).unwrap();
    let again = stake_accounts(plan.record.to_bytes(), RENT);
    assert_eq!(
        stake_nft(&PROGRAM, &again, T0 + 100, RENT).unwrap_err(),
        ProgramError::Custom(StakingError::AlreadyInitialized.code())
    );
}

#[test]
fn stake_requires_signer_and_accounts() {
    let mut accounts = stake_accounts(Vec::new(), 0);
    accounts[0].is_signer = false;
    assert_eq!(stake_nft(&PROGRAM, &accounts, T0, RENT).unwrap_err(), ProgramError::MissingRequiredSignature);
    let short = stake_accounts(Vec::new(), 0)[..7].to_vec();
    assert_eq!(stake_nft(&PROGRAM, &short, T0, RENT).unwrap_err(), ProgramError::NotEnoughAccountKeys);
}

#[test]
fn stake_rejects_wrong_derived_address() {
    let mut accounts = stake_accounts(Vec::new(), 0);
    accounts[3].key = [99u8; 32];
    assert_eq!(
        stake_nft(&PROGRAM, &accounts, T0, RENT).unwrap_err(),
        ProgramError::Custom(StakingError::InvalidPDA.code())
    );
}

#[test]
fn stake_rejects_bad_record_length() {
    let accounts = stake_accounts(vec![0u8; 40], RENT);
    assert_eq!(stake_nft(&PROGRAM, &accounts, T0, RENT).unwrap_err(), ProgramError::InvalidAccountData);
}

#[test]
fn token_validation_errors() {
    let good = token_account([20u8; 32], MINT, USER, 1);
    assert_eq!(validate_token_account(&good, &USER, &MINT, &TOKEN_PROGRAM, true), Ok(()));
    let custom = |e: StakingError| Err(ProgramError::Custom(e.code()));
    assert_eq!(
        validate_token_account(&good, &USER, &MINT, &[5u8; 32], true),
        custom(StakingError::InvalidTokenAccount)
    );
    assert_eq!(
        validate_token_account(&good, &USER, &REWARD_MINT, &TOKEN_PROGRAM, true),
        custom(StakingError::InvalidMint)
    );
    assert_eq!(
        validate_token_account(&good, &[1u8; 32], &MINT, &TOKEN_PROGRAM, true),
        custom(StakingError::InvalidTokenAccountOwner)
    );
    let two = token_account([20u8; 32], MINT, USER, 2);
    assert_eq!(
        validate_token_account(&two, &USER, &MINT, &TOKEN_PROGRAM, true),
        custom(StakingError::InvalidTokenAccount)
    );
    assert_eq!(validate_token_account(&two, &USER, &MINT, &TOKEN_PROGRAM, false), Ok(()));
    let mut short = good.clone();
    short.data.truncate(71);
    assert_eq!(
        validate_token_account(&short, &USER, &MINT, &TOKEN_PROGRAM, false),
        custom(StakingError::InvalidTokenAccount)
    );
}

#[test]
fn stake_then_unstake_refunds_owner() {
    let before = stake_accounts(Vec::new(), 0);
    let plan = stake_nft(&PROGRAM, &before, T0, RENT).unwrap();
    let create = plan.create.unwrap();
    let mut after = stake_accounts(plan.record.to_bytes(), create.lamports);
    after[0].lamports = before[0].lamports - create.lamports;
    let unstake = unstake_nft(&PROGRAM, &after[..5]).unwrap();
    assert_eq!(unstake, UnstakePlan { refund: RENT, user_lamports: before[0].lamports });
}

#[test]
fn unstake_foreign_record_fails_invalid_owner() {
    let mut record = live_record(T0);
    record.owner = [77u8; 32];
    let accounts = stake_accounts(record.to_bytes(), RENT);
    assert_eq!(
        unstake_nft(&PROGRAM, &accounts).unwrap_err(),
        ProgramError::Custom(StakingError::InvalidOwner.code())
    );
    let mut record = live_record(T0);
    record.nft_mint = [78u8; 32];
    let accounts = stake_accounts(record.to_bytes(), RENT);
    assert_eq!(
        unstake_nft(&PROGRAM, &accounts).unwrap_err(),
        ProgramError::Custom(StakingError::InvalidOwner.code())
    );
}

#[test]
fn unstake_without_record_fails_not_initialized() {
    let accounts = stake_accounts(Vec::new(), 0);
    assert_eq!(
        unstake_nft(&PROGRAM, &accounts).unwrap_err(),
        ProgramError::Custom(StakingError::NotInitialized.code())
    );
    let accounts = stake_accounts(vec![0u8; 81], RENT);
    assert_eq!(
        unstake_nft(&PROGRAM, &accounts).unwrap_err(),
        ProgramError::Custom(StakingError::NotInitialized.code())
    );
}

#[test]
fn unstake_requires_nft_still_held() {
    let mut accounts = stake_accounts(live_record(T0).to_bytes(), RENT);
    accounts[1] = token_account([20u8; 32], MINT, USER, 0);
    assert_eq!(
        unstake_nft(&PROGRAM, &accounts).unwrap_err(),
        ProgramError::Custom(StakingError::InvalidTokenAccount.code())
    );
}

#[test]
fn unstake_balance_overflow_is_reported() {
    let mut accounts = stake_accounts(live_record(T0).to_bytes(), RENT);
    accounts[0].lamports = u64::MAX;
    assert_eq!(
        unstake_nft(&PROGRAM, &accounts).unwrap_err(),
        ProgramError::Custom(StakingError::LamportTransferOverflow.code())
    );
}

#[test]
fn claim_after_one_day_pays_daily_rate() {
    let accounts = claim_accounts(live_record(T0), 1_000_000_000_000);
    let plan = claim_rewards(&PROGRAM, &accounts, T0 + 86400, &RewardConfig::standard()).unwrap();
    assert_eq!(plan.amount, 250_000_000_000);
    assert_eq!(plan.authority_bump, find_program_authority(&PROGRAM).unwrap().1);
    assert_eq!(plan.record, live_record(T0 + 86400));
}

#[test]
fn claim_twice_second_pays_nothing() {
    let accounts = claim_accounts(live_record(T0), 1_000_000_000_000);
    let first = claim_rewards(&PROGRAM, &accounts, T0 + 86400, &RewardConfig::standard()).unwrap();
    let accounts = claim_accounts(first.record, 1_000_000_000_000 - first.amount);
    let second = claim_rewards(&PROGRAM, &accounts, T0 + 86400, &RewardConfig::standard()).unwrap();
    assert_eq!(second.amount, 0);
    assert_eq!(second.record, first.record);
}

#[test]
fn claim_with_empty_treasury_fails() {
    let accounts = claim_accounts(live_record(T0), 0);
    assert_eq!(
        claim_rewards(&PROGRAM, &accounts, T0 + 86400, &RewardConfig::standard()).unwrap_err(),
        ProgramError::Custom(StakingError::InsufficientRewards.code())
    );
}

#[test]
fn claim_foreign_record_fails_invalid_owner() {
    let mut record = live_record(T0);
    record.owner = [77u8; 32];
    let accounts = claim_accounts(record, 1_000_000_000_000);
    assert_eq!(
        claim_rewards(&PROGRAM, &accounts, T0 + 86400, &RewardConfig::standard()).unwrap_err(),
        ProgramError::Custom(StakingError::InvalidOwner.code())
    );
}

#[test]
fn claim_rejects_wrong_authority_and_treasury() {
    let mut accounts = claim_accounts(live_record(T0), 1_000_000_000_000);
    accounts[8].key = [55u8; 32];
    assert_eq!(
        claim_rewards(&PROGRAM, &accounts, T0 + 86400, &RewardConfig::standard()).unwrap_err(),
        ProgramError::Custom(StakingError::InvalidPDA.code())
    );
    let mut accounts = claim_accounts(live_record(T0), 1_000_000_000_000);
    accounts[5] = token_account([22u8; 32], REWARD_MINT, USER, 1_000_000_000_000);
    assert_eq!(
        claim_rewards(&PROGRAM, &accounts, T0 + 86400, &RewardConfig::standard()).unwrap_err(),
        ProgramError::Custom(StakingError::InvalidTokenAccountOwner.code())
    );
}

#[test]
fn process_dispatches_by_tag() {
    let accounts = stake_accounts(Vec::new(), 0);
    match process_instruction(&PROGRAM, &accounts, &[0], T0, RENT) {
        Ok(InstructionPlan::Stake(plan)) => assert_eq!(plan.record, live_record(T0)),
        other => panic!("unexpected {:?}", other),
    }
    assert_eq!(
        process_instruction(&PROGRAM, &accounts, &[9], T0, RENT).unwrap_err(),
        ProgramError::Custom(StakingError::InvalidInstruction.code())
    );
    let accounts = claim_accounts(live_record(T0), 300_000_000_000);
    match process_instruction(&PROGRAM, &accounts, &[2], T0 + 172800, RENT) {
        Ok(InstructionPlan::Claim(plan)) => {
            assert_eq!(plan.amount, 300_000_000_000);
            assert_eq!(plan.record.last_claim_time, T0 + 86400);
        }
        other => panic!("unexpected {:?}", other),
    }
}
