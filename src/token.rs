use vstd::prelude::*;

use crate::account::AccountState;
use crate::bytes::{key_at, read_u64_le, same_key, u64_of_le};
use crate::error::{custom, ProgramError, StakingError};

verus! {

/// Bytes of a token account that this program reads: mint, owner, amount.
pub const TOKEN_ACCOUNT_PREFIX_LEN: usize = 72;

/// The mint field of token-account data.
pub open spec fn token_mint(data: Seq<u8>) -> Seq<u8> {
    data.subrange(0, 32)
}

/// The owner field of token-account data.
pub open spec fn token_owner(data: Seq<u8>) -> Seq<u8> {
    data.subrange(32, 64)
}

/// The amount field of token-account data.
pub open spec fn token_amount(data: Seq<u8>) -> u64 {
    u64_of_le(data.subrange(64, 72))
}

/// The outcome of authenticating a token account, checks taken in order:
/// owning program, layout, mint, owner, and, when asked, a balance of one.
pub open spec fn token_check(
    account: AccountState,
    expected_owner: Seq<u8>,
    expected_mint: Seq<u8>,
    token_program: Seq<u8>,
    check_balance: bool,
) -> Result<(), ProgramError> {
    let data = account.data@;
    if account.owner@ != token_program {
        Err(custom(StakingError::InvalidTokenAccount))
    } else if data.len() < 72 {
        Err(custom(StakingError::InvalidTokenAccount))
    } else if token_mint(data) != expected_mint {
        Err(custom(StakingError::InvalidMint))
    } else if token_owner(data) != expected_owner {
        Err(custom(StakingError::InvalidTokenAccountOwner))
    } else if check_balance && token_amount(data) != 1 {
        Err(custom(StakingError::InvalidTokenAccount))
    } else {
        Ok(())
    }
}

/// Authenticates an account that claims to be a token account of
/// `expected_owner` for `expected_mint`, optionally holding exactly one token.
pub fn validate_token_account(
    token_account: &AccountState,
    expected_owner: &[u8; 32],
    expected_mint: &[u8; 32],
    token_program: &[u8; 32],
    check_balance: bool,
) -> (r: Result<(), ProgramError>)
    ensures
        r == token_check(*token_account, expected_owner@, expected_mint@, token_program@, check_balance),
{
    if !same_key(&token_account.owner, token_program) {
        return Err(StakingError::InvalidTokenAccount.to_program_error());
    }
    let data = token_account.data.as_slice();
    if data.len() < TOKEN_ACCOUNT_PREFIX_LEN {
        return Err(StakingError::InvalidTokenAccount.to_program_error());
    }
    if !key_at(data, 0, expected_mint) {
        return Err(StakingError::InvalidMint.to_program_error());
    }
    if !key_at(data, 32, expected_owner) {
        return Err(StakingError::InvalidTokenAccountOwner.to_program_error());
    }
    if check_balance {
        let amount = read_u64_le(data, 64);
        if amount != 1 {
            return Err(StakingError::InvalidTokenAccount.to_program_error());
        }
    }
    Ok(())
}

/// Reads the token amount of data that `validate_token_account` accepted.
pub fn read_token_amount(data: &[u8]) -> (r: u64)
    requires
        data@.len() >= 72,
    ensures
        r == token_amount(data@),
{
    read_u64_le(data, 64)
}

} // verus!
