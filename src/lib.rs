//! Initialization of a two-party token-swap escrow: the instruction codec, the
//! persisted escrow record, and the processor that validates the supplied
//! accounts, writes the record and prepares the hand-over of the deposited
//! token account to the program's derived authority.

pub mod error;
pub mod instruction;
pub mod processor;
pub mod state;
pub mod token;
