use vstd::prelude::*;

use crate::address::{opt_view, Address};

verus! {

/// The address and bump seed that `Pubkey::try_find_program_address` finds
/// for `seeds` under `program_id`, or `None` where it finds none.
pub uninterp spec fn program_address(seeds: Seq<Seq<u8>>, program_id: Seq<u8>) -> Option<(Seq<u8>, u8)>;

/// The views of a list of owned seeds.
pub open spec fn seeds_view(seeds: Seq<Vec<u8>>) -> Seq<Seq<u8>> {
    seeds.map_values(|s: Vec<u8>| s@)
}

/// The address part of a derivation, where one exists.
pub open spec fn derived_key(seeds: Seq<Seq<u8>>, program_id: Seq<u8>) -> Option<Seq<u8>> {
    match program_address(seeds, program_id) {
        Some((k, _)) => Some(k),
        None => None,
    }
}

/// The seeds, bump included, with which a derived address signs.
pub open spec fn signer_seeds_of(seeds: Seq<Seq<u8>>, program_id: Seq<u8>) -> Seq<Seq<u8>> {
    match program_address(seeds, program_id) {
        Some((_, bump)) => seeds.push(seq![bump]),
        None => seeds,
    }
}

/// Relies on `Pubkey::try_find_program_address`: its result (the first
/// off-curve address, counting the bump seed down from 255) depends on the
/// seeds and the program id alone.
#[verifier::external_body]
fn try_find_program_address(seeds: &Vec<Vec<u8>>, program_id: &Address) -> (r: Option<(Address, u8)>)
    ensures
        match r {
            Some((k, bump)) => program_address(seeds_view(seeds@), program_id@) == Some((k@, bump)),
            None => program_address(seeds_view(seeds@), program_id@) is None,
        },
{
    let slices: Vec<&[u8]> = seeds.iter().map(|s| s.as_slice()).collect();
    let id = anchor_lang::prelude::Pubkey::new_from_array(program_id.bytes);
    match anchor_lang::prelude::Pubkey::try_find_program_address(&slices, &id) {
        Some((k, bump)) => Some((Address { bytes: k.to_bytes() }, bump)),
        None => None,
    }
}

/// The bytes of the upgradeable loader's program id,
/// `BPFLoaderUpgradeab1e11111111111111111111111`.
pub open spec fn loader_id_bytes() -> Seq<u8> {
    seq![
        2u8, 168u8, 246u8, 145u8, 78u8, 136u8, 161u8, 176u8,
        226u8, 16u8, 21u8, 62u8, 247u8, 99u8, 174u8, 43u8,
        0u8, 194u8, 185u8, 61u8, 22u8, 193u8, 36u8, 210u8,
        192u8, 83u8, 122u8, 16u8, 4u8, 128u8, 0u8, 0u8,
    ]
}

/// The upgradeable loader: the program that owns managed programs and
/// their upgrade authority.
#[derive(Clone, Copy, Debug)]
pub struct BpfUpgradableLoader {}

impl BpfUpgradableLoader {
    /// Relies on `bpf_loader_upgradeable::id`, the loader's fixed program id.
    #[verifier::external_body]
    pub fn id() -> (r: Address)
        ensures
            r@ == loader_id_bytes(),
    {
        Address { bytes: anchor_lang::solana_program::bpf_loader_upgradeable::id().to_bytes() }
    }
}

/// The value of a timestamp's two's complement bit pattern, as an unsigned
/// 64-bit number.
pub open spec fn unsigned_bits(t: i64) -> int {
    if t >= 0 {
        t as int
    } else {
        t as int + 0x1_0000_0000_0000_0000
    }
}

/// The big-endian bytes of a timestamp.
pub open spec fn be_bytes(t: i64) -> Seq<u8> {
    let u = unsigned_bits(t);
    seq![
        ((u / 0x100_0000_0000_0000) % 256) as u8,
        ((u / 0x1_0000_0000_0000) % 256) as u8,
        ((u / 0x100_0000_0000) % 256) as u8,
        ((u / 0x1_0000_0000) % 256) as u8,
        ((u / 0x100_0000) % 256) as u8,
        ((u / 0x1_0000) % 256) as u8,
        ((u / 0x100) % 256) as u8,
        (u % 256) as u8,
    ]
}

/// The big-endian bytes of a timestamp, as `i64::to_be_bytes` gives them.
pub fn timestamp_be_bytes(t: i64) -> (r: Vec<u8>)
    ensures
        r@ == be_bytes(t),
{
    let u: u64 = if t >= 0 {
        t as u64
    } else {
        let m: u64 = (-(t + 1)) as u64;
        u64::MAX - m
    };
    assert(u as int == unsigned_bits(t));
    let mut out: Vec<u8> = Vec::new();
    out.push(((u / 0x100_0000_0000_0000) % 256) as u8);
    out.push(((u / 0x1_0000_0000_0000) % 256) as u8);
    out.push(((u / 0x100_0000_0000) % 256) as u8);
    out.push(((u / 0x1_0000_0000) % 256) as u8);
    out.push(((u / 0x100_0000) % 256) as u8);
    out.push(((u / 0x1_0000) % 256) as u8);
    out.push(((u / 0x100) % 256) as u8);
    out.push((u % 256) as u8);
    assert(out@ =~= be_bytes(t));
    out
}

/// The seeds of a mutual-consent escrow: the current principal, then the
/// counterpart. Order matters: `(a, b)` and `(b, a)` name different escrows.
pub open spec fn escrow_seeds(current: Seq<u8>, new: Seq<u8>) -> Seq<Seq<u8>> {
    seq![current, new]
}

/// The seeds of a time-locked escrow: the counterpart, then the deadline's
/// big-endian bytes.
pub open spec fn timelock_seeds(new: Seq<u8>, timestamp: i64) -> Seq<Seq<u8>> {
    seq![new, be_bytes(timestamp)]
}

/// The seeds that bind a program's data record to the program.
pub open spec fn program_data_seeds(program: Seq<u8>) -> Seq<Seq<u8>> {
    seq![program]
}

/// The seed list of a mutual-consent escrow.
pub fn escrow_seed_list(current: &Address, new: &Address) -> (r: Vec<Vec<u8>>)
    ensures
        seeds_view(r@) == escrow_seeds(current@, new@),
{
    let mut seeds: Vec<Vec<u8>> = Vec::new();
    seeds.push(current.to_vec());
    seeds.push(new.to_vec());
    assert(seeds_view(seeds@) =~= escrow_seeds(current@, new@));
    seeds
}

/// The seed list of a time-locked escrow.
pub fn timelock_seed_list(new: &Address, timestamp: i64) -> (r: Vec<Vec<u8>>)
    ensures
        seeds_view(r@) == timelock_seeds(new@, timestamp),
{
    let mut seeds: Vec<Vec<u8>> = Vec::new();
    seeds.push(new.to_vec());
    seeds.push(timestamp_be_bytes(timestamp));
    assert(seeds_view(seeds@) =~= timelock_seeds(new@, timestamp));
    seeds
}

/// A seed list followed by the one-byte bump seed: what lets a derived
/// address sign.
pub fn with_bump(seeds: Vec<Vec<u8>>, bump: u8) -> (r: Vec<Vec<u8>>)
    ensures
        seeds_view(r@) == seeds_view(seeds@).push(seq![bump]),
{
    let mut bump_seed: Vec<u8> = Vec::new();
    bump_seed.push(bump);
    let mut out = seeds;
    out.push(bump_seed);
    assert(seeds_view(out@) =~= seeds_view(seeds@).push(seq![bump]));
    out
}

/// Derives the escrow address (and bump seed) for a handover from `current`
/// to `new` under the protocol's program id.
pub fn escrow_authority(program_id: &Address, current: &Address, new: &Address) -> (r: Option<
    (Address, u8),
>)
    ensures
        match r {
            Some((k, bump)) => program_address(escrow_seeds(current@, new@), program_id@) == Some(
                (k@, bump),
            ),
            None => program_address(escrow_seeds(current@, new@), program_id@) is None,
        },
{
    let seeds = escrow_seed_list(current, new);
    try_find_program_address(&seeds, program_id)
}

/// Derives the escrow address (and bump seed) that holds authority until
/// `timestamp` on the way to `new`.
pub fn timelock_authority(program_id: &Address, new: &Address, timestamp: i64) -> (r: Option<
    (Address, u8),
>)
    ensures
        match r {
            Some((k, bump)) => program_address(timelock_seeds(new@, timestamp), program_id@) == Some(
                (k@, bump),
            ),
            None => program_address(timelock_seeds(new@, timestamp), program_id@) is None,
        },
{
    let seeds = timelock_seed_list(new, timestamp);
    try_find_program_address(&seeds, program_id)
}

/// Derives the address of the data record that the upgradeable loader
/// binds to `program`.
pub fn program_data_address(program: &Address) -> (r: Option<Address>)
    ensures
        opt_view(r) == derived_key(program_data_seeds(program@), loader_id_bytes()),
{
    let mut seeds: Vec<Vec<u8>> = Vec::new();
    seeds.push(program.to_vec());
    assert(seeds_view(seeds@) =~= program_data_seeds(program@));
    let loader = BpfUpgradableLoader::id();
    match try_find_program_address(&seeds, &loader) {
        Some((k, _)) => Some(k),
        None => None,
    }
}

} // verus!
