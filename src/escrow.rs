//! The mutual-consent escrow: the current authority proposes a handover to
//! a counterpart by moving authority to an escrow address derived from the
//! pair; the counterpart accepts it, or anyone reverts it.
use vstd::prelude::*;

use crate::address::Address;
use crate::derive::{
    derived_key,
    escrow_authority,
    escrow_seed_list,
    escrow_seeds,
    seeds_view,
    signer_seeds_of,
    with_bump,
};
use crate::program::{
    check_program,
    has_authority,
    set_authority,
    shape_error,
    with_authority,
    ErrorCode,
    ManagedProgram,
    Participant,
    ProgramView,
    SetAuthority,
};

verus! {

/// The accounts of `propose` and `revert`: this protocol's program id, the
/// principal that holds authority, and the counterpart.
#[derive(Clone, Copy, Debug, PartialEq, Eq)]
pub struct Propose {
    pub program_id: Address,
    pub current_authority: Participant,
    pub new_authority: Address,
}

/// The accounts of `accept`: this protocol's program id, the principal that
/// proposed, and the counterpart, who must sign.
#[derive(Clone, Copy, Debug, PartialEq, Eq)]
pub struct Accept {
    pub program_id: Address,
    pub current_authority: Address,
    pub new_authority: Participant,
}

/// The escrow address of a handover from `current` to `new`.
pub open spec fn escrow_key(program_id: Seq<u8>, current: Seq<u8>, new: Seq<u8>) -> Option<Seq<u8>> {
    derived_key(escrow_seeds(current, new), program_id)
}

/// The outcome of `propose`: the current authority, who must sign, hands
/// authority to the escrow address of the pair.
pub open spec fn propose_step(ctx: Propose, p: ProgramView) -> Result<ProgramView, ErrorCode> {
    let current = ctx.current_authority.key@;
    if !ctx.current_authority.is_signer {
        Err(ErrorCode::MissingSignature)
    } else if shape_error(p) is Some {
        Err(shape_error(p)->Some_0)
    } else if p.authority != Some(current) {
        Err(ErrorCode::AuthorityMismatch)
    } else {
        match escrow_key(ctx.program_id@, current, ctx.new_authority@) {
            Some(escrow) => Ok(with_authority(p, escrow)),
            None => Err(ErrorCode::AddressDerivationFailed),
        }
    }
}

/// The outcome of `revert`: where authority sits with the pair's escrow
/// address, it goes back to the proposer. No signature is needed.
pub open spec fn revert_step(ctx: Propose, p: ProgramView) -> Result<ProgramView, ErrorCode> {
    let current = ctx.current_authority.key@;
    if shape_error(p) is Some {
        Err(shape_error(p)->Some_0)
    } else {
        match escrow_key(ctx.program_id@, current, ctx.new_authority@) {
            Some(escrow) => if p.authority == Some(escrow) {
                Ok(with_authority(p, current))
            } else {
                Err(ErrorCode::AuthorityMismatch)
            },
            None => Err(ErrorCode::AddressDerivationFailed),
        }
    }
}

/// The outcome of `accept`: where authority sits with the pair's escrow
/// address, the counterpart, who must sign, takes it.
pub open spec fn accept_step(ctx: Accept, p: ProgramView) -> Result<ProgramView, ErrorCode> {
    let new = ctx.new_authority.key@;
    if !ctx.new_authority.is_signer {
        Err(ErrorCode::MissingSignature)
    } else if shape_error(p) is Some {
        Err(shape_error(p)->Some_0)
    } else {
        match escrow_key(ctx.program_id@, ctx.current_authority@, new) {
            Some(escrow) => if p.authority == Some(escrow) {
                Ok(with_authority(p, new))
            } else {
                Err(ErrorCode::AuthorityMismatch)
            },
            None => Err(ErrorCode::AddressDerivationFailed),
        }
    }
}

/// Proposes handing `program`'s upgrade authority from
/// `ctx.current_authority` to `ctx.new_authority`: authority moves to the
/// pair's escrow address. Returns the change the loader is to make.
pub fn propose(ctx: &Propose, program: &mut ManagedProgram) -> (r: Result<SetAuthority, ErrorCode>)
    ensures
        r is Ok <==> propose_step(*ctx, old(program)@) is Ok,
        r is Ok ==> {
            let a = r->Ok_0;
            &&& final(program)@ == propose_step(*ctx, old(program)@)->Ok_0
            &&& a.program == old(program).key
            &&& a.current_authority == ctx.current_authority.key
            &&& a.new_authority is Some
            &&& Some(a.new_authority->Some_0@) == escrow_key(
                ctx.program_id@,
                ctx.current_authority.key@,
                ctx.new_authority@,
            )
            &&& a.signer_seeds@.len() == 0
        },
        r is Err ==> propose_step(*ctx, old(program)@) == Err::<ProgramView, ErrorCode>(r->Err_0)
            && *final(program) == *old(program),
{
    if !ctx.current_authority.is_signer {
        return Err(ErrorCode::MissingSignature);
    }
    check_program(program)?;
    if !has_authority(program, &ctx.current_authority.key) {
        return Err(ErrorCode::AuthorityMismatch);
    }
    match escrow_authority(&ctx.program_id, &ctx.current_authority.key, &ctx.new_authority) {
        Some((escrow, _)) => {
            set_authority(program, escrow);
            Ok(
                SetAuthority {
                    program: program.key,
                    current_authority: ctx.current_authority.key,
                    new_authority: Some(escrow),
                    signer_seeds: Vec::new(),
                },
            )
        },
        None => Err(ErrorCode::AddressDerivationFailed),
    }
}

/// Reverts a proposed handover: authority moves from the pair's escrow
/// address back to `ctx.current_authority`. Anyone may revert, since the
/// seeds are public: `ctx.current_authority.is_signer` is not consulted.
pub fn revert(ctx: &Propose, program: &mut ManagedProgram) -> (r: Result<SetAuthority, ErrorCode>)
    ensures
        r is Ok <==> revert_step(*ctx, old(program)@) is Ok,
        r is Ok ==> {
            let a = r->Ok_0;
            &&& final(program)@ == revert_step(*ctx, old(program)@)->Ok_0
            &&& a.program == old(program).key
            &&& Some(a.current_authority@) == escrow_key(
                ctx.program_id@,
                ctx.current_authority.key@,
                ctx.new_authority@,
            )
            &&& a.new_authority == Some(ctx.current_authority.key)
            &&& seeds_view(a.signer_seeds@) == signer_seeds_of(
                escrow_seeds(ctx.current_authority.key@, ctx.new_authority@),
                ctx.program_id@,
            )
        },
        r is Err ==> revert_step(*ctx, old(program)@) == Err::<ProgramView, ErrorCode>(r->Err_0)
            && *final(program) == *old(program),
{
    check_program(program)?;
    let current = ctx.current_authority.key;
    match escrow_authority(&ctx.program_id, &current, &ctx.new_authority) {
        Some((escrow, bump)) => {
            if !has_authority(program, &escrow) {
                return Err(ErrorCode::AuthorityMismatch);
            }
            set_authority(program, current);
            Ok(
                SetAuthority {
                    program: program.key,
                    current_authority: escrow,
                    new_authority: Some(current),
                    signer_seeds: with_bump(escrow_seed_list(&current, &ctx.new_authority), bump),
                },
            )
        },
        None => Err(ErrorCode::AddressDerivationFailed),
    }
}

/// Accepts a proposed handover: authority moves from the pair's escrow
/// address to `ctx.new_authority`, who must sign.
pub fn accept(ctx: &Accept, program: &mut ManagedProgram) -> (r: Result<SetAuthority, ErrorCode>)
    ensures
        r is Ok <==> accept_step(*ctx, old(program)@) is Ok,
        r is Ok ==> {
            let a = r->Ok_0;
            &&& final(program)@ == accept_step(*ctx, old(program)@)->Ok_0
            &&& a.program == old(program).key
            &&& Some(a.current_authority@) == escrow_key(
                ctx.program_id@,
                ctx.current_authority@,
                ctx.new_authority.key@,
            )
            &&& a.new_authority == Some(ctx.new_authority.key)
            &&& seeds_view(a.signer_seeds@) == signer_seeds_of(
                escrow_seeds(ctx.current_authority@, ctx.new_authority.key@),
                ctx.program_id@,
            )
        },
        r is Err ==> accept_step(*ctx, old(program)@) == Err::<ProgramView, ErrorCode>(r->Err_0)
            && *final(program) == *old(program),
{
    if !ctx.new_authority.is_signer {
        return Err(ErrorCode::MissingSignature);
    }
    check_program(program)?;
    let new = ctx.new_authority.key;
    match escrow_authority(&ctx.program_id, &ctx.current_authority, &new) {
        Some((escrow, bump)) => {
            if !has_authority(program, &escrow) {
                return Err(ErrorCode::AuthorityMismatch);
            }
            set_authority(program, new);
            Ok(
                SetAuthority {
                    program: program.key,
                    current_authority: escrow,
                    new_authority: Some(new),
                    signer_seeds: with_bump(escrow_seed_list(&ctx.current_authority, &new), bump),
                },
            )
        },
        None => Err(ErrorCode::AddressDerivationFailed),
    }
}

/// Proposing a handover and then reverting it gives the program back as it
/// was, authority with the proposer; the revert may come from anyone.
pub proof fn lemma_propose_then_revert(ctx: Propose, by: Propose, p: ProgramView)
    requires
        propose_step(ctx, p) is Ok,
        by.program_id == ctx.program_id,
        by.current_authority.key == ctx.current_authority.key,
        by.new_authority == ctx.new_authority,
    ensures
        revert_step(by, propose_step(ctx, p)->Ok_0) == Ok::<ProgramView, ErrorCode>(p),
        p.authority == Some(ctx.current_authority.key@),
{
}

/// Proposing a handover and then accepting it, signed by the counterpart,
/// leaves authority with the counterpart.
pub proof fn lemma_propose_then_accept(ctx: Propose, by: Accept, p: ProgramView)
    requires
        propose_step(ctx, p) is Ok,
        by.program_id == ctx.program_id,
        by.current_authority == ctx.current_authority.key,
        by.new_authority.key == ctx.new_authority,
        by.new_authority.is_signer,
    ensures
        accept_step(by, propose_step(ctx, p)->Ok_0) == Ok::<ProgramView, ErrorCode>(
            with_authority(p, ctx.new_authority@),
        ),
        (accept_step(by, propose_step(ctx, p)->Ok_0)->Ok_0).authority == Some(ctx.new_authority@),
{
}

/// Accepting fails wherever authority is not the escrow address of the
/// pair: no handover between them is pending.
pub proof fn lemma_accept_needs_pending_handover(ctx: Accept, p: ProgramView)
    requires
        p.authority is None || p.authority != escrow_key(
            ctx.program_id@,
            ctx.current_authority@,
            ctx.new_authority.key@,
        ),
    ensures
        accept_step(ctx, p) is Err,
{
}

/// Accepting fails while the proposer still holds authority (the proposer's
/// address not being the pair's escrow address).
pub proof fn lemma_accept_without_proposal(ctx: Accept, p: ProgramView)
    requires
        p.authority == Some(ctx.current_authority@),
        escrow_key(ctx.program_id@, ctx.current_authority@, ctx.new_authority.key@) != Some(
            ctx.current_authority@,
        ),
    ensures
        accept_step(ctx, p) is Err,
{
    lemma_accept_needs_pending_handover(ctx, p);
}

} // verus!
