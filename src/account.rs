use vstd::prelude::*;

verus! {

/// What an instruction sees of one ledger account it was handed.
#[derive(Debug, Clone)]
pub struct AccountState {
    /// The account's address.
    pub key: [u8; 32],
    /// The program that owns the account.
    pub owner: [u8; 32],
    /// Whether the account signed the transaction.
    pub is_signer: bool,
    /// The account's native balance.
    pub lamports: u64,
    /// The account's data.
    pub data: Vec<u8>,
}

} // verus!
