use vstd::prelude::*;

use crate::bytes::{
    bits_of_i64, i64_of_bits, key_from, le_of_u64, lemma_i64_bits_round_trip,
    lemma_u64_le_round_trip, push_i64_le, push_key, push_u64_le, read_i64_le, u64_of_le,
};
use crate::error::ProgramError;

verus! {

/// Size in bytes of an encoded stake record: flag, owner, mint, two timestamps.
pub const STAKE_ACCOUNT_LEN: usize = 81;

/// The record kept at a stake address while an NFT is staked.
#[derive(Debug, Clone, Copy, PartialEq, Eq, Default)]
pub struct StakeAccount {
    pub is_initialized: bool,
    pub owner: [u8; 32],
    pub nft_mint: [u8; 32],
    pub stake_time: i64,
    pub last_claim_time: i64,
}

/// The mathematical content of a stake record.
pub struct StakeRecordModel {
    pub initialized: bool,
    pub owner: Seq<u8>,
    pub nft_mint: Seq<u8>,
    pub stake_time: i64,
    pub last_claim_time: i64,
}

impl View for StakeAccount {
    type V = StakeRecordModel;

    open spec fn view(&self) -> StakeRecordModel {
        StakeRecordModel {
            initialized: self.is_initialized,
            owner: self.owner@,
            nft_mint: self.nft_mint@,
            stake_time: self.stake_time,
            last_claim_time: self.last_claim_time,
        }
    }
}

/// The record that an uninitialized account decodes to: every field zero.
pub open spec fn empty_record() -> StakeRecordModel {
    StakeRecordModel {
        initialized: false,
        owner: Seq::new(32, |i: int| 0u8),
        nft_mint: Seq::new(32, |i: int| 0u8),
        stake_time: 0,
        last_claim_time: 0,
    }
}

/// A record whose fields can be trusted as written: a live record, or the empty one.
pub open spec fn valid_record(r: StakeRecordModel) -> bool {
    &&& r.owner.len() == 32
    &&& r.nft_mint.len() == 32
    &&& (r.initialized || r == empty_record())
}

/// The 81 bytes of a record: flag byte, owner, mint, stake time and last
/// claim time, integers little-endian.
pub open spec fn encode_record(r: StakeRecordModel) -> Seq<u8> {
    seq![if r.initialized { 1u8 } else { 0u8 }] + r.owner + r.nft_mint + le_of_u64(
        bits_of_i64(r.stake_time),
    ) + le_of_u64(bits_of_i64(r.last_claim_time))
}

/// The record held in 81 bytes. A zero flag byte means no live record,
/// whatever the other bytes hold.
pub open spec fn decode_record(b: Seq<u8>) -> StakeRecordModel
    recommends
        b.len() == 81,
{
    if b[0] == 0 {
        empty_record()
    } else {
        StakeRecordModel {
            initialized: true,
            owner: b.subrange(1, 33),
            nft_mint: b.subrange(33, 65),
            stake_time: i64_of_bits(u64_of_le(b.subrange(65, 73))),
            last_claim_time: i64_of_bits(u64_of_le(b.subrange(73, 81))),
        }
    }
}

/// What checked decoding gives: an error unless the account holds exactly one record.
pub open spec fn unpack_result(b: Seq<u8>) -> Result<StakeRecordModel, ProgramError> {
    if b.len() != 81 {
        Err(ProgramError::InvalidAccountData)
    } else {
        Ok(decode_record(b))
    }
}

/// Decoding an encoded record gives the record back.
pub proof fn lemma_record_round_trip(r: StakeRecordModel)
    requires
        valid_record(r),
    ensures
        encode_record(r).len() == 81,
        decode_record(encode_record(r)) == r,
{
    let b = encode_record(r);
    lemma_u64_le_round_trip(bits_of_i64(r.stake_time));
    lemma_u64_le_round_trip(bits_of_i64(r.last_claim_time));
    lemma_i64_bits_round_trip(r.stake_time);
    lemma_i64_bits_round_trip(r.last_claim_time);
    assert(b.subrange(1, 33) =~= r.owner);
    assert(b.subrange(33, 65) =~= r.nft_mint);
    assert(b.subrange(65, 73) =~= le_of_u64(bits_of_i64(r.stake_time)));
    assert(b.subrange(73, 81) =~= le_of_u64(bits_of_i64(r.last_claim_time)));
}

impl StakeAccount {
    /// The empty record, with every field zero.
    pub fn empty() -> (r: StakeAccount)
        ensures
            r@ == empty_record(),
    {
        let r = StakeAccount {
            is_initialized: false,
            owner: [0u8; 32],
            nft_mint: [0u8; 32],
            stake_time: 0,
            last_claim_time: 0,
        };
        assert(r.owner@ =~= empty_record().owner);
        assert(r.nft_mint@ =~= empty_record().nft_mint);
        r
    }

    /// Whether the record is live.
    pub fn is_initialized(&self) -> (r: bool)
        ensures
            r == self.is_initialized,
    {
        self.is_initialized
    }

    /// Decodes the first 81 bytes of `src`.
    pub fn unpack_from_slice(src: &[u8]) -> (r: Result<StakeAccount, ProgramError>)
        requires
            src@.len() >= 81,
        ensures
            r matches Ok(a) && a@ == decode_record(src@.subrange(0, 81)),
    {
        let ghost b = src@.subrange(0, 81);
        if src[0] == 0 {
            return Ok(StakeAccount::empty());
        }
        let owner = key_from(src, 1);
        let nft_mint = key_from(src, 33);
        let stake_time = read_i64_le(src, 65);
        let last_claim_time = read_i64_le(src, 73);
        assert(b.subrange(1, 33) =~= src@.subrange(1, 33));
        assert(b.subrange(33, 65) =~= src@.subrange(33, 65));
        assert(b.subrange(65, 73) =~= src@.subrange(65, 73));
        assert(b.subrange(73, 81) =~= src@.subrange(73, 81));
        Ok(StakeAccount { is_initialized: true, owner, nft_mint, stake_time, last_claim_time })
    }

    /// Decodes an account's data, which must be exactly one record long.
    pub fn unpack_unchecked(src: &[u8]) -> (r: Result<StakeAccount, ProgramError>)
        ensures
            match (r, unpack_result(src@)) {
                (Ok(a), Ok(m)) => a@ == m,
                (Err(e), Err(f)) => e == f,
                _ => false,
            },
    {
        if src.len() != STAKE_ACCOUNT_LEN {
            return Err(ProgramError::InvalidAccountData);
        }
        assert(src@.subrange(0, 81) =~= src@);
        StakeAccount::unpack_from_slice(src)
    }

    /// The 81 bytes that encode this record.
    pub fn to_bytes(&self) -> (r: Vec<u8>)
        ensures
            r@ == encode_record(self@),
    {
        let mut out: Vec<u8> = Vec::new();
        out.push(if self.is_initialized { 1u8 } else { 0u8 });
        push_key(&mut out, &self.owner);
        push_key(&mut out, &self.nft_mint);
        push_i64_le(&mut out, self.stake_time);
        push_i64_le(&mut out, self.last_claim_time);
        assert(out@ =~= encode_record(self@));
        out
    }

    /// Encodes this record into the first 81 bytes of `dst`, leaving the rest as it was.
    pub fn pack_into_slice(&self, dst: &mut [u8])
        requires
            old(dst)@.len() >= 81,
        ensures
            final(dst)@.len() == old(dst)@.len(),
            final(dst)@.subrange(0, 81) == encode_record(self@),
            final(dst)@.subrange(81, final(dst)@.len() as int) == old(dst)@.subrange(
                81,
                old(dst)@.len() as int,
            ),
    {
        let bytes = self.to_bytes();
        let mut i: usize = 0;
        while i < STAKE_ACCOUNT_LEN
            invariant
                i <= 81,
                bytes@ == encode_record(self@),
                bytes@.len() == 81,
                dst@.len() == old(dst)@.len(),
                dst@.len() >= 81,
                forall|j: int| 0 <= j < i ==> dst@[j] == bytes@[j],
                forall|j: int| 81 <= j < dst@.len() ==> dst@[j] == old(dst)@[j],
            decreases 81 - i,
        {
            dst[i] = bytes[i];
            i = i + 1;
        }
        assert(dst@.subrange(0, 81) =~= encode_record(self@));
        assert(dst@.subrange(81, dst@.len() as int) =~= old(dst)@.subrange(
            81,
            old(dst)@.len() as int,
        ));
    }
}

} // verus!
