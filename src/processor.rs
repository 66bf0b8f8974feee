use vstd::prelude::*;

use crate::account::AccountState;
use crate::address::{
    authority_address, find_program_authority, find_stake_account_address, stake_address,
};
use crate::bytes::same_key;
use crate::error::{custom, ProgramError, StakingError};
use crate::instruction::{decode_instruction, StakingInstruction};
use crate::reward::{
    accrual, compute_rewards, lemma_accrual_bounds, Accrual, RewardConfig, REWARD_RATE_PER_DAY,
    SECONDS_PER_DAY,
};
use crate::state::{
    decode_record, encode_record, lemma_record_round_trip, StakeAccount, StakeRecordModel,
    STAKE_ACCOUNT_LEN,
};
use crate::token::{read_token_amount, token_amount, token_check, validate_token_account};

verus! {

/// Allocation of a new stake record at its derived address, paid by the owner.
#[derive(Debug, Clone, Copy, PartialEq, Eq, Structural)]
pub struct CreateStakeAccount {
    /// Native balance moved from the owner into the new account.
    pub lamports: u64,
    /// Size of the new account's data.
    pub space: u64,
    /// Bump of the derived address, which signs for the new account.
    pub bump: u8,
}

/// What a successful stake does: allocate the record if the account has no
/// data yet, then write `record` into it.
#[derive(Debug, Clone, Copy)]
pub struct StakePlan {
    pub create: Option<CreateStakeAccount>,
    pub record: StakeAccount,
}

/// The record written by a stake of `mint` by `owner` at time `now`.
pub open spec fn new_record(owner: [u8; 32], mint: [u8; 32], now: i64) -> StakeAccount {
    StakeAccount {
        is_initialized: true,
        owner: owner,
        nft_mint: mint,
        stake_time: now,
        last_claim_time: now,
    }
}

/// The outcome of a stake, checks taken in order: account count, signer,
/// the owner's token account, the record's derived address, the record's state.
pub open spec fn stake_outcome(
    program_id: Seq<u8>,
    accounts: Seq<AccountState>,
    now: i64,
    rent_lamports: u64,
) -> Result<StakePlan, ProgramError> {
    if accounts.len() < 8 {
        Err(ProgramError::NotEnoughAccountKeys)
    } else {
        let user = accounts[0];
        let mint = accounts[2];
        let stake = accounts[3];
        if !user.is_signer {
            Err(ProgramError::MissingRequiredSignature)
        } else {
            match token_check(accounts[1], user.key@, mint.key@, accounts[4].key@, true) {
                Err(e) => Err(e),
                Ok(_) => match stake_address(mint.key@, user.key@, program_id) {
                    None => Err(ProgramError::InvalidSeeds),
                    Some((address, bump)) => {
                        if address != stake.key@ {
                            Err(custom(StakingError::InvalidPDA))
                        } else if stake.data@.len() == 0 {
                            Ok(
                                StakePlan {
                                    create: Some(
                                        CreateStakeAccount {
                                            lamports: rent_lamports,
                                            space: 81,
                                            bump: bump,
                                        },
                                    ),
                                    record: new_record(user.key, mint.key, now),
                                },
                            )
                        } else if stake.data@.len() != 81 {
                            Err(ProgramError::InvalidAccountData)
                        } else if decode_record(stake.data@).initialized {
                            Err(custom(StakingError::AlreadyInitialized))
                        } else {
                            Ok(StakePlan { create: None, record: new_record(user.key, mint.key, now) })
                        }
                    },
                },
            }
        }
    }
}

/// Decides a stake: authenticates the accounts and returns the allocation, if
/// any, and the record to write. `now` is the ledger time and `rent_lamports`
/// the balance that makes an 81-byte account rent-exempt.
pub fn stake_nft(
    program_id: &[u8; 32],
    accounts: &[AccountState],
    now: i64,
    rent_lamports: u64,
) -> (r: Result<StakePlan, ProgramError>)
    ensures
        r == stake_outcome(program_id@, accounts@, now, rent_lamports),
{
    if accounts.len() < 8 {
        return Err(ProgramError::NotEnoughAccountKeys);
    }
    let user = &accounts[0];
    let nft_token_account = &accounts[1];
    let nft_mint = &accounts[2];
    let stake_account = &accounts[3];
    let token_program = &accounts[4];
    if !user.is_signer {
        return Err(ProgramError::MissingRequiredSignature);
    }
    let checked = validate_token_account(
        nft_token_account,
        &user.key,
        &nft_mint.key,
        &token_program.key,
        true,
    );
    if let Err(e) = checked {
        return Err(e);
    }
    let (address, bump) = match find_stake_account_address(&nft_mint.key, &user.key, program_id) {
        None => return Err(ProgramError::InvalidSeeds),
        Some(found) => found,
    };
    if !same_key(&address, &stake_account.key) {
        return Err(StakingError::InvalidPDA.to_program_error());
    }
    let record = StakeAccount {
        is_initialized: true,
        owner: user.key,
        nft_mint: nft_mint.key,
        stake_time: now,
        last_claim_time: now,
    };
    if stake_account.data.len() == 0 {
        let create = CreateStakeAccount {
            lamports: rent_lamports,
            space: STAKE_ACCOUNT_LEN as u64,
            bump,
        };
        return Ok(StakePlan { create: Some(create), record });
    }
    let existing = match StakeAccount::unpack_unchecked(stake_account.data.as_slice()) {
        Err(e) => return Err(e),
        Ok(existing) => existing,
    };
    if existing.is_initialized {
        return Err(StakingError::AlreadyInitialized.to_program_error());
    }
    Ok(StakePlan { create: None, record })
}

/// What a successful unstake does: move the record account's whole balance,
/// `refund`, to the owner, whose balance becomes `user_lamports`, and zero the
/// record's data.
#[derive(Debug, Clone, Copy, PartialEq, Eq, Structural)]
pub struct UnstakePlan {
    pub refund: u64,
    pub user_lamports: u64,
}

/// The live record held by a stake account and owned by `user` for `mint`,
/// or the error that authenticating it raises.
pub open spec fn record_check(stake: AccountState, user: Seq<u8>, mint: Seq<u8>) -> Result<
    StakeRecordModel,
    ProgramError,
> {
    let data = stake.data@;
    if data.len() == 0 {
        Err(custom(StakingError::NotInitialized))
    } else if data.len() != 81 {
        Err(ProgramError::InvalidAccountData)
    } else if !decode_record(data).initialized {
        Err(custom(StakingError::NotInitialized))
    } else if decode_record(data).owner != user || decode_record(data).nft_mint != mint {
        Err(custom(StakingError::InvalidOwner))
    } else {
        Ok(decode_record(data))
    }
}

/// Decodes the record held by `stake_account` and checks that it is live and
/// belongs to `user` and `mint`.
pub fn load_stake_record(stake_account: &AccountState, user: &[u8; 32], mint: &[u8; 32]) -> (r:
    Result<StakeAccount, ProgramError>)
    ensures
        match (r, record_check(*stake_account, user@, mint@)) {
            (Ok(a), Ok(m)) => a@ == m,
            (Err(e), Err(f)) => e == f,
            _ => false,
        },
{
    if stake_account.data.len() == 0 {
        return Err(StakingError::NotInitialized.to_program_error());
    }
    let record = match StakeAccount::unpack_unchecked(stake_account.data.as_slice()) {
        Err(e) => return Err(e),
        Ok(record) => record,
    };
    if !record.is_initialized {
        return Err(StakingError::NotInitialized.to_program_error());
    }
    if !same_key(&record.owner, user) || !same_key(&record.nft_mint, mint) {
        return Err(StakingError::InvalidOwner.to_program_error());
    }
    Ok(record)
}

/// The outcome of an unstake, checks taken in order: account count, signer,
/// the record's derived address, the record itself, the owner's token
/// account, and the balance transfer.
pub open spec fn unstake_outcome(program_id: Seq<u8>, accounts: Seq<AccountState>) -> Result<
    UnstakePlan,
    ProgramError,
> {
    if accounts.len() < 5 {
        Err(ProgramError::NotEnoughAccountKeys)
    } else {
        let user = accounts[0];
        let mint = accounts[2];
        let stake = accounts[3];
        if !user.is_signer {
            Err(ProgramError::MissingRequiredSignature)
        } else {
            match stake_address(mint.key@, user.key@, program_id) {
                None => Err(ProgramError::InvalidSeeds),
                Some((address, _)) => {
                    if address != stake.key@ {
                        Err(custom(StakingError::InvalidPDA))
                    } else {
                        match record_check(stake, user.key@, mint.key@) {
                            Err(e) => Err(e),
                            Ok(_) => match token_check(
                                accounts[1],
                                user.key@,
                                mint.key@,
                                accounts[4].key@,
                                true,
                            ) {
                                Err(e) => Err(e),
                                Ok(_) => {
                                    if user.lamports + stake.lamports > u64::MAX {
                                        Err(custom(StakingError::LamportTransferOverflow))
                                    } else {
                                        Ok(
                                            UnstakePlan {
                                                refund: stake.lamports,
                                                user_lamports: (user.lamports
                                                    + stake.lamports) as u64,
                                            },
                                        )
                                    }
                                },
                            },
                        }
                    }
                },
            }
        }
    }
}

/// Decides an unstake: authenticates the record and the owner's live
/// ownership of the NFT, and returns the balance transfer that closes the record.
pub fn unstake_nft(program_id: &[u8; 32], accounts: &[AccountState]) -> (r: Result<
    UnstakePlan,
    ProgramError,
>)
    ensures
        r == unstake_outcome(program_id@, accounts@),
{
    if accounts.len() < 5 {
        return Err(ProgramError::NotEnoughAccountKeys);
    }
    let user = &accounts[0];
    let nft_token_account = &accounts[1];
    let nft_mint = &accounts[2];
    let stake_account = &accounts[3];
    let token_program = &accounts[4];
    if !user.is_signer {
        return Err(ProgramError::MissingRequiredSignature);
    }
    let address = match find_stake_account_address(&nft_mint.key, &user.key, program_id) {
        None => return Err(ProgramError::InvalidSeeds),
        Some((address, _)) => address,
    };
    if !same_key(&address, &stake_account.key) {
        return Err(StakingError::InvalidPDA.to_program_error());
    }
    if let Err(e) = load_stake_record(stake_account, &user.key, &nft_mint.key) {
        return Err(e);
    }
    let checked = validate_token_account(
        nft_token_account,
        &user.key,
        &nft_mint.key,
        &token_program.key,
        true,
    );
    if let Err(e) = checked {
        return Err(e);
    }
    let refund = stake_account.lamports;
    match user.lamports.checked_add(refund) {
        None => Err(StakingError::LamportTransferOverflow.to_program_error()),
        Some(user_lamports) => Ok(UnstakePlan { refund, user_lamports }),
    }
}

/// What a successful claim does: when `amount` is positive, transfer it from
/// the treasury to the owner's reward account under the authority's
/// signature, then write `record`. With `amount` zero nothing changes.
#[derive(Debug, Clone, Copy)]
pub struct ClaimPlan {
    pub amount: u64,
    pub authority_bump: u8,
    pub record: StakeAccount,
}

/// The plan that pays accrual `a` on the authenticated record `m`.
pub open spec fn claim_plan(
    user: [u8; 32],
    mint: [u8; 32],
    m: StakeRecordModel,
    a: Accrual,
    bump: u8,
) -> ClaimPlan {
    ClaimPlan {
        amount: a.payable,
        authority_bump: bump,
        record: StakeAccount {
            is_initialized: true,
            owner: user,
            nft_mint: mint,
            stake_time: m.stake_time,
            last_claim_time: a.new_last_claim_time,
        },
    }
}

/// The outcome of a claim, checks taken in order: account count, signer, the
/// record's and the authority's derived addresses, the record itself, the
/// owner's NFT account, the owner's reward account, the treasury, and the
/// reward computation at `now` against the treasury's balance.
pub open spec fn claim_outcome(
    program_id: Seq<u8>,
    accounts: Seq<AccountState>,
    now: i64,
    config: RewardConfig,
) -> Result<ClaimPlan, ProgramError> {
    if accounts.len() < 10 {
        Err(ProgramError::NotEnoughAccountKeys)
    } else {
        let user = accounts[0];
        let mint = accounts[2];
        let stake = accounts[3];
        let treasury = accounts[5];
        let reward_mint = accounts[6].key@;
        let token_program = accounts[7].key@;
        if !user.is_signer {
            Err(ProgramError::MissingRequiredSignature)
        } else {
            match (stake_address(mint.key@, user.key@, program_id), authority_address(program_id)) {
                (None, _) => Err(ProgramError::InvalidSeeds),
                (Some((address, _)), _) if address != stake.key@ => Err(
                    custom(StakingError::InvalidPDA),
                ),
                (Some(_), None) => Err(ProgramError::InvalidSeeds),
                (Some(_), Some((authority, bump))) => {
                    if authority != accounts[8].key@ {
                        Err(custom(StakingError::InvalidPDA))
                    } else {
                        match record_check(stake, user.key@, mint.key@) {
                            Err(e) => Err(e),
                            Ok(m) => match token_check(
                                accounts[1],
                                user.key@,
                                mint.key@,
                                token_program,
                                true,
                            ) {
                                Err(e) => Err(e),
                                Ok(_) => match token_check(
                                    accounts[4],
                                    user.key@,
                                    reward_mint,
                                    token_program,
                                    false,
                                ) {
                                    Err(e) => Err(e),
                                    Ok(_) => match token_check(
                                        treasury,
                                        authority,
                                        reward_mint,
                                        token_program,
                                        false,
                                    ) {
                                        Err(e) => Err(e),
                                        Ok(_) => match accrual(
                                            now,
                                            m.last_claim_time,
                                            config,
                                            token_amount(treasury.data@),
                                        ) {
                                            Err(e) => Err(custom(e)),
                                            Ok(a) => Ok(claim_plan(user.key, mint.key, m, a, bump)),
                                        },
                                    },
                                },
                            },
                        }
                    }
                },
            }
        }
    }
}

/// Decides a claim: authenticates the record, the owner's live ownership of
/// the NFT, the reward account and the treasury, and computes the payout at
/// time `now` with the reward rate `config`.
pub fn claim_rewards(
    program_id: &[u8; 32],
    accounts: &[AccountState],
    now: i64,
    config: &RewardConfig,
) -> (r: Result<ClaimPlan, ProgramError>)
    ensures
        r == claim_outcome(program_id@, accounts@, now, *config),
{
    if accounts.len() < 10 {
        return Err(ProgramError::NotEnoughAccountKeys);
    }
    let user = &accounts[0];
    let nft_token_account = &accounts[1];
    let nft_mint = &accounts[2];
    let stake_account = &accounts[3];
    let user_reward_account = &accounts[4];
    let treasury_account = &accounts[5];
    let reward_token_mint = &accounts[6];
    let token_program = &accounts[7];
    let program_authority = &accounts[8];
    if !user.is_signer {
        return Err(ProgramError::MissingRequiredSignature);
    }
    let address = match find_stake_account_address(&nft_mint.key, &user.key, program_id) {
        None => return Err(ProgramError::InvalidSeeds),
        Some((address, _)) => address,
    };
    if !same_key(&address, &stake_account.key) {
        return Err(StakingError::InvalidPDA.to_program_error());
    }
    let (authority, authority_bump) = match find_program_authority(program_id) {
        None => return Err(ProgramError::InvalidSeeds),
        Some(found) => found,
    };
    if !same_key(&authority, &program_authority.key) {
        return Err(StakingError::InvalidPDA.to_program_error());
    }
    let record = match load_stake_record(stake_account, &user.key, &nft_mint.key) {
        Err(e) => return Err(e),
        Ok(record) => record,
    };
    let checked = validate_token_account(
        nft_token_account,
        &user.key,
        &nft_mint.key,
        &token_program.key,
        true,
    );
    if let Err(e) = checked {
        return Err(e);
    }
    let checked = validate_token_account(
        user_reward_account,
        &user.key,
        &reward_token_mint.key,
        &token_program.key,
        false,
    );
    if let Err(e) = checked {
        return Err(e);
    }
    let checked = validate_token_account(
        treasury_account,
        &authority,
        &reward_token_mint.key,
        &token_program.key,
        false,
    );
    if let Err(e) = checked {
        return Err(e);
    }
    let treasury_balance = read_token_amount(treasury_account.data.as_slice());
    match compute_rewards(now, record.last_claim_time, config, treasury_balance) {
        Err(e) => Err(e.to_program_error()),
        Ok(a) => Ok(
            ClaimPlan {
                amount: a.payable,
                authority_bump,
                record: StakeAccount {
                    is_initialized: true,
                    owner: user.key,
                    nft_mint: nft_mint.key,
                    stake_time: record.stake_time,
                    last_claim_time: a.new_last_claim_time,
                },
            },
        ),
    }
}

/// What an instruction does once decided.
#[derive(Debug, Clone, Copy)]
pub enum InstructionPlan {
    Stake(StakePlan),
    Unstake(UnstakePlan),
    Claim(ClaimPlan),
}

/// The reward rate the program pays.
pub open spec fn standard_config() -> RewardConfig {
    RewardConfig { rate_per_day: REWARD_RATE_PER_DAY, seconds_per_day: SECONDS_PER_DAY }
}

/// The outcome of one instruction payload on the given accounts.
pub open spec fn instruction_outcome(
    program_id: Seq<u8>,
    accounts: Seq<AccountState>,
    instruction_data: Seq<u8>,
    now: i64,
    rent_lamports: u64,
) -> Result<InstructionPlan, ProgramError> {
    match decode_instruction(instruction_data) {
        Err(e) => Err(e),
        Ok(StakingInstruction::StakeNft) => match stake_outcome(program_id, accounts, now, rent_lamports) {
            Err(e) => Err(e),
            Ok(p) => Ok(InstructionPlan::Stake(p)),
        },
        Ok(StakingInstruction::UnstakeNft) => match unstake_outcome(program_id, accounts) {
            Err(e) => Err(e),
            Ok(p) => Ok(InstructionPlan::Unstake(p)),
        },
        Ok(StakingInstruction::ClaimRewards) => match claim_outcome(
            program_id,
            accounts,
            now,
            standard_config(),
        ) {
            Err(e) => Err(e),
            Ok(p) => Ok(InstructionPlan::Claim(p)),
        },
    }
}

/// Decodes an instruction payload and decides it against the accounts, with
/// the ledger time `now` and the rent-exempt balance `rent_lamports` of a
/// stake record.
pub fn process_instruction(
    program_id: &[u8; 32],
    accounts: &[AccountState],
    instruction_data: &[u8],
    now: i64,
    rent_lamports: u64,
) -> (r: Result<InstructionPlan, ProgramError>)
    ensures
        r == instruction_outcome(program_id@, accounts@, instruction_data@, now, rent_lamports),
{
    let instruction = match StakingInstruction::unpack(instruction_data) {
        Err(e) => return Err(e),
        Ok(instruction) => instruction,
    };
    match instruction {
        StakingInstruction::StakeNft => match stake_nft(program_id, accounts, now, rent_lamports) {
            Err(e) => Err(e),
            Ok(p) => Ok(InstructionPlan::Stake(p)),
        },
        StakingInstruction::UnstakeNft => match unstake_nft(program_id, accounts) {
            Err(e) => Err(e),
            Ok(p) => Ok(InstructionPlan::Unstake(p)),
        },
        StakingInstruction::ClaimRewards => {
            let config = RewardConfig::standard();
            match claim_rewards(program_id, accounts, now, &config) {
                Err(e) => Err(e),
                Ok(p) => Ok(InstructionPlan::Claim(p)),
            }
        },
    }
}

/// `after` is `before` with the stake account (index 3) holding `data`; every
/// other account, and the stake account's address, are as they were.
pub open spec fn with_stake_data(
    before: Seq<AccountState>,
    after: Seq<AccountState>,
    data: Seq<u8>,
) -> bool {
    &&& before.len() == after.len()
    &&& before.len() > 3
    &&& forall|i: int| 0 <= i < before.len() && i != 3 ==> #[trigger] after[i] == before[i]
    &&& after[3].key == before[3].key
    &&& after[3].data@ == data
}

/// Once a stake has written its record, staking the same NFT again with the
/// same accounts fails with `AlreadyInitialized`, so the record is not touched.
pub proof fn lemma_restake_fails(
    program_id: Seq<u8>,
    before: Seq<AccountState>,
    after: Seq<AccountState>,
    now: i64,
    later: i64,
    rent_lamports: u64,
)
    requires
        stake_outcome(program_id, before, now, rent_lamports) is Ok,
        with_stake_data(
            before,
            after,
            encode_record(stake_outcome(program_id, before, now, rent_lamports).unwrap().record@),
        ),
    ensures
        stake_outcome(program_id, after, later, rent_lamports) == Err::<StakePlan, ProgramError>(
            custom(StakingError::AlreadyInitialized),
        ),
{
    let p = stake_outcome(program_id, before, now, rent_lamports).unwrap();
    assert(p.record.owner@.len() == 32 && p.record.nft_mint@.len() == 32);
    lemma_record_round_trip(p.record@);
    assert(after[0] == before[0] && after[1] == before[1] && after[2] == before[2] && after[4]
        == before[4]);
}

/// An unstake whose account holds a live record of another owner or another
/// mint fails with `InvalidOwner`, once the signer and the derived address check out.
pub proof fn lemma_unstake_foreign_record_fails(
    program_id: Seq<u8>,
    accounts: Seq<AccountState>,
    record: StakeRecordModel,
)
    requires
        accounts.len() >= 5,
        accounts[0].is_signer,
        stake_address(accounts[2].key@, accounts[0].key@, program_id) matches Some((a, _)) && a
            == accounts[3].key@,
        record.initialized,
        record.owner.len() == 32,
        record.nft_mint.len() == 32,
        accounts[3].data@ == encode_record(record),
        record.owner != accounts[0].key@ || record.nft_mint != accounts[2].key@,
    ensures
        unstake_outcome(program_id, accounts) == Err::<UnstakePlan, ProgramError>(
            custom(StakingError::InvalidOwner),
        ),
{
    lemma_record_round_trip(record);
}

/// A claim whose account holds a live record of another owner or another
/// mint fails with `InvalidOwner`, once the signer and the derived addresses check out.
pub proof fn lemma_claim_foreign_record_fails(
    program_id: Seq<u8>,
    accounts: Seq<AccountState>,
    now: i64,
    config: RewardConfig,
    record: StakeRecordModel,
)
    requires
        accounts.len() >= 10,
        accounts[0].is_signer,
        stake_address(accounts[2].key@, accounts[0].key@, program_id) matches Some((a, _)) && a
            == accounts[3].key@,
        authority_address(program_id) matches Some((a, _)) && a == accounts[8].key@,
        record.initialized,
        record.owner.len() == 32,
        record.nft_mint.len() == 32,
        accounts[3].data@ == encode_record(record),
        record.owner != accounts[0].key@ || record.nft_mint != accounts[2].key@,
    ensures
        claim_outcome(program_id, accounts, now, config) == Err::<ClaimPlan, ProgramError>(
            custom(StakingError::InvalidOwner),
        ),
{
    lemma_record_round_trip(record);
}

/// Staking into a fresh stake account and then unstaking it gives the owner
/// back every lamport that the allocation took: when the allocation moved
/// `create.lamports` from the owner into the new account, the unstake refunds
/// them and the owner's balance returns to what it was before the stake.
pub proof fn lemma_stake_unstake_refund(
    program_id: Seq<u8>,
    before: Seq<AccountState>,
    after: Seq<AccountState>,
    now: i64,
    rent_lamports: u64,
)
    requires
        before.len() >= 8,
        before[3].lamports == 0,
        stake_outcome(program_id, before, now, rent_lamports) is Ok,
        unstake_outcome(program_id, after) is Ok,
        stake_outcome(program_id, before, now, rent_lamports).unwrap().create matches Some(c) && {
            &&& after[0].lamports == before[0].lamports - c.lamports
            &&& after[3].lamports == before[3].lamports + c.lamports
        },
    ensures
        unstake_outcome(program_id, after).unwrap().user_lamports == before[0].lamports,
{
}

/// A successful claim keeps the record's owner, mint and stake time, moves
/// its checkpoint forward but never past `now`, and pays at most what the
/// treasury holds.
pub proof fn lemma_claim_checkpoint_monotone(
    program_id: Seq<u8>,
    accounts: Seq<AccountState>,
    now: i64,
    config: RewardConfig,
)
    requires
        claim_outcome(program_id, accounts, now, config) is Ok,
    ensures
        ({
            let p = claim_outcome(program_id, accounts, now, config).unwrap();
            let old_record = decode_record(accounts[3].data@);
            &&& p.record@.initialized
            &&& p.record@.owner == old_record.owner
            &&& p.record@.nft_mint == old_record.nft_mint
            &&& p.record.stake_time == old_record.stake_time
            &&& old_record.last_claim_time <= p.record.last_claim_time
            &&& (now > old_record.last_claim_time ==> p.record.last_claim_time <= now)
            &&& p.amount <= token_amount(accounts[5].data@)
        }),
{
    let m = decode_record(accounts[3].data@);
    lemma_accrual_bounds(now, m.last_claim_time, config, token_amount(accounts[5].data@));
}

} // verus!
