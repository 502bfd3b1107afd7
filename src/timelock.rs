//! The time-locked handover: the current authority commits authority to an
//! escrow address derived from the counterpart and a deadline; once the
//! deadline has passed, anyone moves it on to the counterpart. There is no
//! way back.
use vstd::prelude::*;

use crate::address::Address;
use crate::derive::{
    derived_key,
    seeds_view,
    signer_seeds_of,
    timelock_authority,
    timelock_seed_list,
    timelock_seeds,
    with_bump,
};
use crate::program::{
    check_program,
    has_authority,
    set_authority,
    shape_error,
    with_authority,
    ErrorCode,
    ManagedProgram,
    Participant,
    ProgramView,
    SetAuthority,
};

verus! {

/// The longest time lock, in seconds: one year of 365 days.
pub const ONE_YEAR: i64 = 365 * 24 * 60 * 60;

/// The accounts of `commit`: this protocol's program id, the principal that
/// holds authority and must sign, and the counterpart.
#[derive(Clone, Copy, Debug, PartialEq, Eq)]
pub struct Commit {
    pub program_id: Address,
    pub current_authority: Participant,
    pub new_authority: Address,
}

/// The accounts of `transfer`: this protocol's program id and the
/// counterpart. No signature is needed.
#[derive(Clone, Copy, Debug, PartialEq, Eq)]
pub struct Transfer {
    pub program_id: Address,
    pub new_authority: Address,
}

/// The escrow address that holds authority until `timestamp` on the way to
/// `new`.
pub open spec fn timelock_key(program_id: Seq<u8>, new: Seq<u8>, timestamp: i64) -> Option<Seq<u8>> {
    derived_key(timelock_seeds(new, timestamp), program_id)
}

/// The outcome of `commit` at time `now`: a deadline more than a year ahead
/// is refused; otherwise the current authority, who must sign, hands
/// authority to the escrow address of the counterpart and the deadline.
pub open spec fn commit_step(ctx: Commit, timestamp: i64, now: i64, p: ProgramView) -> Result<
    ProgramView,
    ErrorCode,
> {
    let current = ctx.current_authority.key@;
    if timestamp > now + ONE_YEAR {
        Err(ErrorCode::TimestampTooLate)
    } else if !ctx.current_authority.is_signer {
        Err(ErrorCode::MissingSignature)
    } else if shape_error(p) is Some {
        Err(shape_error(p)->Some_0)
    } else if p.authority != Some(current) {
        Err(ErrorCode::AuthorityMismatch)
    } else {
        match timelock_key(ctx.program_id@, ctx.new_authority@, timestamp) {
            Some(escrow) => Ok(with_authority(p, escrow)),
            None => Err(ErrorCode::AddressDerivationFailed),
        }
    }
}

/// The outcome of `transfer` at time `now`: before the deadline it is
/// refused; from the deadline on, where authority sits with the escrow
/// address of the counterpart and the deadline, the counterpart takes it.
pub open spec fn transfer_step(ctx: Transfer, timestamp: i64, now: i64, p: ProgramView) -> Result<
    ProgramView,
    ErrorCode,
> {
    if now < timestamp {
        Err(ErrorCode::TimestampTooEarly)
    } else if shape_error(p) is Some {
        Err(shape_error(p)->Some_0)
    } else {
        match timelock_key(ctx.program_id@, ctx.new_authority@, timestamp) {
            Some(escrow) => if p.authority == Some(escrow) {
                Ok(with_authority(p, ctx.new_authority@))
            } else {
                Err(ErrorCode::AuthorityMismatch)
            },
            None => Err(ErrorCode::AddressDerivationFailed),
        }
    }
}

/// Whether `timestamp` lies more than a year after `now`.
pub fn deadline_too_far(timestamp: i64, now: i64) -> (r: bool)
    ensures
        r == (timestamp > now + ONE_YEAR),
{
    match now.checked_add(ONE_YEAR) {
        Some(limit) => limit < timestamp,
        None => false,
    }
}

/// Commits `program`'s upgrade authority, at time `now`, to a handover to
/// `ctx.new_authority` that completes at `timestamp`: authority moves to the
/// escrow address of the counterpart and the deadline. All checks come
/// before any change. Returns the change the loader is to make.
pub fn commit(ctx: &Commit, program: &mut ManagedProgram, timestamp: i64, now: i64) -> (r: Result<
    SetAuthority,
    ErrorCode,
>)
    ensures
        r is Ok <==> commit_step(*ctx, timestamp, now, old(program)@) is Ok,
        r is Ok ==> {
            let a = r->Ok_0;
            &&& final(program)@ == commit_step(*ctx, timestamp, now, old(program)@)->Ok_0
            &&& a.program == old(program).key
            &&& a.current_authority == ctx.current_authority.key
            &&& a.new_authority is Some
            &&& Some(a.new_authority->Some_0@) == timelock_key(
                ctx.program_id@,
                ctx.new_authority@,
                timestamp,
            )
            &&& a.signer_seeds@.len() == 0
        },
        r is Err ==> commit_step(*ctx, timestamp, now, old(program)@) == Err::<
            ProgramView,
            ErrorCode,
        >(r->Err_0) && *final(program) == *old(program),
{
    if deadline_too_far(timestamp, now) {
        return Err(ErrorCode::TimestampTooLate);
    }
    if !ctx.current_authority.is_signer {
        return Err(ErrorCode::MissingSignature);
    }
    check_program(program)?;
    if !has_authority(program, &ctx.current_authority.key) {
        return Err(ErrorCode::AuthorityMismatch);
    }
    match timelock_authority(&ctx.program_id, &ctx.new_authority, timestamp) {
        Some((escrow, _)) => {
            set_authority(program, escrow);
            Ok(
                SetAuthority {
                    program: program.key,
                    current_authority: ctx.current_authority.key,
                    new_authority: Some(escrow),
                    signer_seeds: Vec::new(),
                },
            )
        },
        None => Err(ErrorCode::AddressDerivationFailed),
    }
}

/// Completes a time-locked handover at time `now`: from `timestamp` on,
/// authority moves from the escrow address of the counterpart and the
/// deadline to `ctx.new_authority`. All checks come before any change.
pub fn transfer(ctx: &Transfer, program: &mut ManagedProgram, timestamp: i64, now: i64) -> (r:
    Result<SetAuthority, ErrorCode>)
    ensures
        r is Ok <==> transfer_step(*ctx, timestamp, now, old(program)@) is Ok,
        r is Ok ==> {
            let a = r->Ok_0;
            &&& final(program)@ == transfer_step(*ctx, timestamp, now, old(program)@)->Ok_0
            &&& a.program == old(program).key
            &&& Some(a.current_authority@) == timelock_key(
                ctx.program_id@,
                ctx.new_authority@,
                timestamp,
            )
            &&& a.new_authority == Some(ctx.new_authority)
            &&& seeds_view(a.signer_seeds@) == signer_seeds_of(
                timelock_seeds(ctx.new_authority@, timestamp),
                ctx.program_id@,
            )
        },
        r is Err ==> transfer_step(*ctx, timestamp, now, old(program)@) == Err::<
            ProgramView,
            ErrorCode,
        >(r->Err_0) && *final(program) == *old(program),
{
    if now < timestamp {
        return Err(ErrorCode::TimestampTooEarly);
    }
    check_program(program)?;
    let new = ctx.new_authority;
    match timelock_authority(&ctx.program_id, &new, timestamp) {
        Some((escrow, bump)) => {
            if !has_authority(program, &escrow) {
                return Err(ErrorCode::AuthorityMismatch);
            }
            set_authority(program, new);
            Ok(
                SetAuthority {
                    program: program.key,
                    current_authority: escrow,
                    new_authority: Some(new),
                    signer_seeds: with_bump(timelock_seed_list(&new, timestamp), bump),
                },
            )
        },
        None => Err(ErrorCode::AddressDerivationFailed),
    }
}

/// A deadline more than a year ahead is refused, whatever else holds; a
/// refused commit leaves the program as it was.
pub proof fn lemma_commit_deadline_too_far(ctx: Commit, timestamp: i64, now: i64, p: ProgramView)
    requires
        timestamp > now + ONE_YEAR,
    ensures
        commit_step(ctx, timestamp, now, p) == Err::<ProgramView, ErrorCode>(
            ErrorCode::TimestampTooLate,
        ),
{
}

/// Before its deadline a transfer is refused, whatever else holds.
pub proof fn lemma_transfer_before_deadline(ctx: Transfer, timestamp: i64, now: i64, p: ProgramView)
    requires
        now < timestamp,
    ensures
        transfer_step(ctx, timestamp, now, p) == Err::<ProgramView, ErrorCode>(
            ErrorCode::TimestampTooEarly,
        ),
{
}

/// After a commit, a transfer to the same counterpart with the same deadline
/// succeeds at any time from the deadline on, and leaves authority with the
/// counterpart.
pub proof fn lemma_commit_then_transfer(
    ctx: Commit,
    by: Transfer,
    timestamp: i64,
    committed_at: i64,
    now: i64,
    p: ProgramView,
)
    requires
        commit_step(ctx, timestamp, committed_at, p) is Ok,
        by.program_id == ctx.program_id,
        by.new_authority == ctx.new_authority,
        now >= timestamp,
    ensures
        transfer_step(by, timestamp, now, commit_step(ctx, timestamp, committed_at, p)->Ok_0)
            == Ok::<ProgramView, ErrorCode>(with_authority(p, ctx.new_authority@)),
{
}

} // verus!
