//! Handover of a program's upgrade authority through derived escrow
//! addresses: a mutual-consent escrow (propose, revert, accept) and a
//! time-locked one-way transfer (commit, transfer).
//!
//! Each step checks everything first, then moves the authority in the
//! managed program's record and returns the matching change for the loader
//! to make; a rejected step changes nothing.
use vstd::prelude::*;

pub mod address;
pub mod derive;
pub mod escrow;
pub mod program;
pub mod timelock;

pub use address::{is_held_by, Address};
pub use derive::{
    escrow_authority,
    program_data_address,
    timelock_authority,
    timestamp_be_bytes,
    BpfUpgradableLoader,
};
pub use escrow::{accept, propose, revert, Accept, Propose};
pub use program::{check_program, ErrorCode, ManagedProgram, Participant, SetAuthority};
pub use timelock::{commit, deadline_too_far, transfer, Commit, Transfer, ONE_YEAR};

verus! {

} // verus!
