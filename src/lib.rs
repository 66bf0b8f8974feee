//! Verified core of an NFT staking program: instruction decoding, the stake
//! record layout, derived-address checks, token-account validation, reward
//! accrual and the per-instruction state machine.
use vstd::prelude::*;

pub mod account;
pub mod address;
pub mod bytes;
pub mod error;
pub mod instruction;
pub mod processor;
pub mod reward;
pub mod state;
pub mod token;

pub use error::{ProgramError, StakingError};
pub use instruction::StakingInstruction;
pub use processor::process_instruction;
pub use state::StakeAccount;

verus! {

} // verus!
