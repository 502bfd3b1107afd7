use vstd::prelude::*;

use crate::address::{is_held_by, opt_view, Address};
use crate::derive::{derived_key, loader_id_bytes, program_data_address, program_data_seeds};

verus! {

/// Why a handover step was rejected. A rejected step changes nothing.
#[derive(Clone, Copy, Debug, PartialEq, Eq, Structural)]
pub enum ErrorCode {
    /// The deadline has not been reached yet.
    TimestampTooEarly,
    /// The deadline lies more than a year ahead.
    TimestampTooLate,
    /// A principal whose consent the step needs did not sign.
    MissingSignature,
    /// The program account is not executable.
    NotExecutable,
    /// The program account does not hold a program.
    NotAProgram,
    /// The data record is not the one the loader binds to the program.
    ProgramDataMismatch,
    /// The upgrade authority is not the one the step expects.
    AuthorityMismatch,
    /// No escrow address can be derived from the seeds.
    AddressDerivationFailed,
}

/// A principal named in a step, and whether it signed the step.
#[derive(Clone, Copy, Debug, PartialEq, Eq)]
pub struct Participant {
    pub key: Address,
    pub is_signer: bool,
}

/// The managed resource: an upgradeable program, the data record passed
/// with it, and the upgrade authority that record holds (`None`: frozen).
#[derive(Clone, Copy, Debug, PartialEq, Eq)]
pub struct ManagedProgram {
    pub key: Address,
    pub executable: bool,
    pub is_program: bool,
    pub program_data: Address,
    pub upgrade_authority: Option<Address>,
}

/// The mathematical model of a managed program.
pub struct ProgramView {
    pub key: Seq<u8>,
    pub executable: bool,
    pub is_program: bool,
    pub program_data: Seq<u8>,
    pub authority: Option<Seq<u8>>,
}

impl View for ManagedProgram {
    type V = ProgramView;

    open spec fn view(&self) -> ProgramView {
        ProgramView {
            key: self.key@,
            executable: self.executable,
            is_program: self.is_program,
            program_data: self.program_data@,
            authority: opt_view(self.upgrade_authority),
        }
    }
}

/// The model with its authority replaced.
pub open spec fn with_authority(p: ProgramView, authority: Seq<u8>) -> ProgramView {
    ProgramView { authority: Some(authority), ..p }
}

/// What is wrong with the shape of a program, if anything: it must be an
/// executable program account, passed with the data record that the loader
/// derives from the program's own address.
pub open spec fn shape_error(p: ProgramView) -> Option<ErrorCode> {
    if !p.executable {
        Some(ErrorCode::NotExecutable)
    } else if !p.is_program {
        Some(ErrorCode::NotAProgram)
    } else if derived_key(program_data_seeds(p.key), loader_id_bytes()) != Some(p.program_data) {
        Some(ErrorCode::ProgramDataMismatch)
    } else {
        None
    }
}

/// Checks that `program` is an executable program passed with its own data
/// record.
pub fn check_program(program: &ManagedProgram) -> (r: Result<(), ErrorCode>)
    ensures
        r is Ok <==> shape_error(program@) is None,
        r is Err ==> shape_error(program@) == Some(r->Err_0),
{
    if !program.executable {
        return Err(ErrorCode::NotExecutable);
    }
    if !program.is_program {
        return Err(ErrorCode::NotAProgram);
    }
    match program_data_address(&program.key) {
        Some(k) => {
            if k.same(&program.program_data) {
                Ok(())
            } else {
                Err(ErrorCode::ProgramDataMismatch)
            }
        },
        None => Err(ErrorCode::ProgramDataMismatch),
    }
}

/// The upgrade-authority change that the loader is asked to make: from
/// `current_authority` to `new_authority` on `program`. Where the current
/// authority is an escrow address, `signer_seeds` are the seeds and bump
/// that prove it; otherwise they are empty and the authority signs itself.
#[derive(Clone, Debug, PartialEq, Eq)]
pub struct SetAuthority {
    pub program: Address,
    pub current_authority: Address,
    pub new_authority: Option<Address>,
    pub signer_seeds: Vec<Vec<u8>>,
}

/// Replaces the upgrade authority.
pub fn set_authority(program: &mut ManagedProgram, authority: Address)
    ensures
        final(program)@ == with_authority(old(program)@, authority@),
        final(program).key == old(program).key,
        final(program).upgrade_authority == Some(authority),
{
    program.upgrade_authority = Some(authority);
}

/// Whether `program`'s upgrade authority is `key`.
pub fn has_authority(program: &ManagedProgram, key: &Address) -> (r: bool)
    ensures
        r == (program@.authority == Some(key@)),
{
    is_held_by(&program.upgrade_authority, key)
}

} // verus!
