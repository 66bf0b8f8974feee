use vstd::prelude::*;

use crate::error::{custom, ProgramError, StakingError};

verus! {

/// The instructions the program accepts, selected by the payload's first byte.
#[derive(Debug, Clone, Copy, PartialEq, Eq, Structural)]
pub enum StakingInstruction {
    /// Stake an NFT without moving it.
    ///
    /// Accounts expected:
    /// 0. `[signer, writable]` The owner of the NFT (payer for the record's creation)
    /// 1. `[]` The owner's NFT token account (checked for ownership)
    /// 2. `[]` The NFT mint address
    /// 3. `[writable]` The stake account (derived address, created if needed)
    /// 4. `[]` Token program
    /// 5. `[]` Rent sysvar
    /// 6. `[]` System program
    /// 7. `[]` Clock sysvar
    StakeNft,
    /// Unstake an NFT and close its record.
    ///
    /// Accounts expected:
    /// 0. `[signer, writable]` The owner of the NFT (receives the record's lamports)
    /// 1. `[]` The owner's NFT token account (checked for ownership)
    /// 2. `[]` The NFT mint address
    /// 3. `[writable]` The stake account (derived address, closed)
    /// 4. `[]` Token program
    UnstakeNft,
    /// Claim the rewards accrued by a staked NFT.
    ///
    /// Accounts expected:
    /// 0. `[signer, writable]` The owner of the NFT
    /// 1. `[]` The owner's NFT token account (checked for ownership)
    /// 2. `[]` The NFT mint address
    /// 3. `[writable]` The stake account (derived address, checkpoint updated)
    /// 4. `[writable]` The owner's reward token account
    /// 5. `[writable]` Treasury token account holding reward tokens
    /// 6. `[]` Reward token mint
    /// 7. `[]` Token program
    /// 8. `[]` Program authority (derived address)
    /// 9. `[]` Clock sysvar
    ClaimRewards,
}

/// The tag byte of an instruction.
pub open spec fn instruction_tag(i: StakingInstruction) -> u8 {
    match i {
        StakingInstruction::StakeNft => 0,
        StakingInstruction::UnstakeNft => 1,
        StakingInstruction::ClaimRewards => 2,
    }
}

/// The instruction a payload selects: its first byte names it, the rest is ignored.
pub open spec fn decode_instruction(input: Seq<u8>) -> Result<StakingInstruction, ProgramError> {
    if input.len() == 0 {
        Err(custom(StakingError::InvalidInstruction))
    } else if input[0] == 0 {
        Ok(StakingInstruction::StakeNft)
    } else if input[0] == 1 {
        Ok(StakingInstruction::UnstakeNft)
    } else if input[0] == 2 {
        Ok(StakingInstruction::ClaimRewards)
    } else {
        Err(custom(StakingError::InvalidInstruction))
    }
}

impl StakingInstruction {
    /// Decodes an instruction payload.
    pub fn unpack(input: &[u8]) -> (r: Result<StakingInstruction, ProgramError>)
        ensures
            r == decode_instruction(input@),
    {
        if input.len() == 0 {
            return Err(StakingError::InvalidInstruction.to_program_error());
        }
        let tag = input[0];
        if tag == 0 {
            Ok(StakingInstruction::StakeNft)
        } else if tag == 1 {
            Ok(StakingInstruction::UnstakeNft)
        } else if tag == 2 {
            Ok(StakingInstruction::ClaimRewards)
        } else {
            Err(StakingError::InvalidInstruction.to_program_error())
        }
    }

    /// Encodes an instruction as its payload: the tag byte alone.
    pub fn pack(&self) -> (r: Vec<u8>)
        ensures
            r@ == seq![instruction_tag(*self)],
    {
        let mut buf: Vec<u8> = Vec::with_capacity(1);
        match self {
            StakingInstruction::StakeNft => buf.push(0),
            StakingInstruction::UnstakeNft => buf.push(1),
            StakingInstruction::ClaimRewards => buf.push(2),
        }
        assert(buf@ =~= seq![instruction_tag(*self)]);
        buf
    }
}

/// Decoding an encoded instruction gives the instruction back.
pub proof fn lemma_instruction_round_trip(i: StakingInstruction)
    ensures
        decode_instruction(seq![instruction_tag(i)]) == Ok::<StakingInstruction, ProgramError>(i),
{
}

} // verus!
