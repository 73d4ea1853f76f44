//! Program-derived addresses: the seeds of the two escrow accounts and of
//! associated token accounts, and their derivation through solana's
//! `Pubkey::create_program_address` / `Pubkey::try_find_program_address`.
use vstd::prelude::*;

use crate::pubkey::{associated_token_program_id, token_program_id, Pubkey};
use crate::state::roast_escrow::RoastEscrow;

verus! {

/// Most seeds a derivation accepts.
pub const MAX_SEEDS: usize = 16;

/// Longest seed a derivation accepts, in bytes.
pub const MAX_SEED_LEN: usize = 32;

/// The seeds held in a vector, as byte sequences.
pub open spec fn seeds_view(s: Seq<Vec<u8>>) -> Seq<Seq<u8>> {
    s.map_values(|v: Vec<u8>| v@)
}

/// Whether a derivation accepts this many seeds of these lengths.
pub open spec fn seeds_within_limits(seeds: Seq<Seq<u8>>) -> bool {
    &&& seeds.len() <= MAX_SEEDS
    &&& forall|i: int| 0 <= i < seeds.len() ==> #[trigger] seeds[i].len() <= MAX_SEED_LEN
}

/// The program-derived address of `seeds` (within limits) under `program_id`:
/// the SHA-256 digest of the seeds, the program id and the PDA marker when it
/// lies off the ed25519 curve, `None` when it lies on it.
pub uninterp spec fn program_address(seeds: Seq<Seq<u8>>, program_id: Seq<u8>) -> Option<Seq<u8>>;

/// What `create_program_address` gives: the program address for seeds within
/// limits, `None` otherwise.
pub open spec fn derived_address(seeds: Seq<Seq<u8>>, program_id: Seq<u8>) -> Option<Seq<u8>> {
    if seeds_within_limits(seeds) {
        program_address(seeds, program_id)
    } else {
        None
    }
}

/// The seeds followed by the one-byte bump seed.
pub open spec fn with_bump(seeds: Seq<Seq<u8>>, bump: u8) -> Seq<Seq<u8>> {
    seeds.push(seq![bump])
}

/// The first bump from `bump` down to 1 for which the seeds with that bump
/// derive an address, with that address.
pub open spec fn find_from(seeds: Seq<Seq<u8>>, program_id: Seq<u8>, bump: int) -> Option<(Seq<u8>, u8)>
    decreases bump,
{
    if bump < 1 {
        None
    } else {
        match derived_address(with_bump(seeds, bump as u8), program_id) {
            Some(k) => Some((k, bump as u8)),
            None => find_from(seeds, program_id, bump - 1),
        }
    }
}

/// The canonical program address of `seeds`: the one of the highest bump
/// that derives an address, with that bump.
pub open spec fn find_pda(seeds: Seq<Seq<u8>>, program_id: Seq<u8>) -> Option<(Seq<u8>, u8)> {
    find_from(seeds, program_id, 255)
}

/// An optional address by its bytes.
pub open spec fn key_option_view(r: Option<Pubkey>) -> Option<Seq<u8>> {
    match r {
        Some(k) => Some(k@),
        None => None,
    }
}

/// An optional address and bump by the address's bytes.
pub open spec fn found_view(r: Option<(Pubkey, u8)>) -> Option<(Seq<u8>, u8)> {
    match r {
        Some((k, b)) => Some((k@, b)),
        None => None,
    }
}

/// Calls `Pubkey::create_program_address` (solana_program, re-exported by
/// anchor_lang). Its source returns an error when there are more than 16 seeds
/// or a seed is longer than 32 bytes, an error when the digest lies on the
/// curve, and the digest as the address otherwise; this contract claims just
/// that, naming the digest `program_address`.
#[verifier::external_body]
fn create_program_address(seeds: &Vec<Vec<u8>>, program_id: &Pubkey) -> (r: Option<Pubkey>)
    ensures
        seeds_within_limits(seeds_view(seeds@)) ==> key_option_view(r) == program_address(
            seeds_view(seeds@),
            program_id@,
        ),
        !seeds_within_limits(seeds_view(seeds@)) ==> r is None,
{
    let refs: Vec<&[u8]> = seeds.iter().map(|s| s.as_slice()).collect();
    let id = anchor_lang::prelude::Pubkey::new_from_array(program_id.bytes);
    match anchor_lang::prelude::Pubkey::create_program_address(&refs, &id) {
        Ok(k) => Some(Pubkey { bytes: k.to_bytes() }),
        Err(_) => None,
    }
}

/// Calls `Pubkey::try_find_program_address` (solana_program, re-exported by
/// anchor_lang). Its source tries the bump seeds 255, 254, ..., 1 appended to
/// the seeds and returns the first address that `create_program_address`
/// derives, with its bump, and `None` when none does or the seeds exceed the
/// limits; this contract claims just that.
#[verifier::external_body]
fn try_find_program_address(seeds: &Vec<Vec<u8>>, program_id: &Pubkey) -> (r: Option<(Pubkey, u8)>)
    ensures
        found_view(r) == find_pda(seeds_view(seeds@), program_id@),
{
    let refs: Vec<&[u8]> = seeds.iter().map(|s| s.as_slice()).collect();
    let id = anchor_lang::prelude::Pubkey::new_from_array(program_id.bytes);
    match anchor_lang::prelude::Pubkey::try_find_program_address(&refs, &id) {
        Some((k, b)) => Some((Pubkey { bytes: k.to_bytes() }, b)),
        None => None,
    }
}

/// The little-endian bytes of the low `n` bytes of `x`.
pub open spec fn le_bytes(x: nat, n: nat) -> Seq<u8>
    decreases n,
{
    if n == 0 {
        seq![]
    } else {
        seq![(x % 256) as u8] + le_bytes(x / 256, (n - 1) as nat)
    }
}

/// The eight little-endian bytes of `x`, as `u64::to_le_bytes` gives them.
pub fn u64_le_bytes(x: u64) -> (r: Vec<u8>)
    ensures
        r@ == le_bytes(x as nat, 8),
{
    let mut out: Vec<u8> = Vec::new();
    let mut v: u64 = x;
    let mut i: usize = 0;
    while i < 8
        invariant
            0 <= i <= 8,
            out@ + le_bytes(v as nat, (8 - i) as nat) == le_bytes(x as nat, 8),
        decreases 8 - i,
    {
        let ghost rest = le_bytes((v / 256) as nat, (8 - i - 1) as nat);
        let ghost out0 = out@;
        let b: u8 = (v % 256) as u8;
        assert(le_bytes(v as nat, (8 - i) as nat) == seq![b] + rest);
        out.push(b);
        v = v / 256;
        i = i + 1;
        assert(out@ + rest =~= out0 + (seq![b] + rest));
    }
    assert(le_bytes(v as nat, 0) =~= Seq::<u8>::empty());
    assert(out@ + Seq::<u8>::empty() =~= out@);
    out
}

/// `"escrow"`: the first seed of the escrow PDA that holds the tokens.
pub open spec fn escrow_seed_prefix() -> Seq<u8> {
    seq![101u8, 115, 99, 114, 111, 119]
}

/// `"roast_escrow"`: the first seed of the account that stores a roast.
pub open spec fn roast_escrow_seed_prefix() -> Seq<u8> {
    seq![114u8, 111, 97, 115, 116, 95, 101, 115, 99, 114, 111, 119]
}

/// The seeds `[prefix, roaster, receiver, seed_id as little-endian bytes]`.
pub open spec fn pda_seeds(prefix: Seq<u8>, roaster: Seq<u8>, receiver: Seq<u8>, seed_id: u64) -> Seq<Seq<u8>> {
    seq![prefix, roaster, receiver, le_bytes(seed_id as nat, 8)]
}

/// Seeds of the escrow PDA, the authority of the escrowed tokens.
pub open spec fn escrow_seeds(roaster: Seq<u8>, receiver: Seq<u8>, seed_id: u64) -> Seq<Seq<u8>> {
    pda_seeds(escrow_seed_prefix(), roaster, receiver, seed_id)
}

/// Seeds of the account that stores the roast.
pub open spec fn roast_escrow_seeds(roaster: Seq<u8>, receiver: Seq<u8>, seed_id: u64) -> Seq<Seq<u8>> {
    pda_seeds(roast_escrow_seed_prefix(), roaster, receiver, seed_id)
}

/// Seeds of the escrow PDA of a stored roast, with the stored bump: the seeds
/// the PDA signs with.
pub open spec fn escrow_signer_seeds_of(e: RoastEscrow) -> Seq<Seq<u8>> {
    with_bump(escrow_seeds(e.roaster@, e.receiver@, e.seed_id), e.bump)
}

/// Seeds of the associated token account of `wallet` for `mint`.
pub open spec fn associated_token_seeds(wallet: Seq<u8>, mint: Seq<u8>) -> Seq<Seq<u8>> {
    seq![wallet, token_program_id(), mint]
}

/// The associated token account of `wallet` for `mint`: the canonical address
/// of its seeds under the associated token account program.
pub open spec fn associated_address(wallet: Seq<u8>, mint: Seq<u8>) -> Option<Seq<u8>> {
    match find_pda(associated_token_seeds(wallet, mint), associated_token_program_id()) {
        Some((k, _)) => Some(k),
        None => None,
    }
}

/// Whether `key` is the canonical address of `seeds` under `program_id`.
pub open spec fn is_canonical_address(seeds: Seq<Seq<u8>>, program_id: Seq<u8>, key: Seq<u8>) -> bool {
    match find_pda(seeds, program_id) {
        Some((k, _)) => k == key,
        None => false,
    }
}

fn escrow_seed_prefix_vec() -> (r: Vec<u8>)
    ensures
        r@ == escrow_seed_prefix(),
{
    let r: Vec<u8> = vec![101u8, 115, 99, 114, 111, 119];
    assert(r@ =~= escrow_seed_prefix());
    r
}

fn roast_escrow_seed_prefix_vec() -> (r: Vec<u8>)
    ensures
        r@ == roast_escrow_seed_prefix(),
{
    let r: Vec<u8> = vec![114u8, 111, 97, 115, 116, 95, 101, 115, 99, 114, 111, 119];
    assert(r@ =~= roast_escrow_seed_prefix());
    r
}

fn pda_seeds_vec(prefix: Vec<u8>, roaster: &Pubkey, receiver: &Pubkey, seed_id: u64) -> (r: Vec<Vec<u8>>)
    ensures
        seeds_view(r@) == pda_seeds(prefix@, roaster@, receiver@, seed_id),
{
    let ghost p = prefix@;
    let mut r: Vec<Vec<u8>> = Vec::new();
    r.push(prefix);
    r.push(roaster.to_vec());
    r.push(receiver.to_vec());
    r.push(u64_le_bytes(seed_id));
    assert(seeds_view(r@) =~= pda_seeds(p, roaster@, receiver@, seed_id));
    r
}

/// The seeds of the escrow PDA: `["escrow", roaster, receiver, seed_id]`.
pub fn escrow_pda_seeds(roaster: &Pubkey, receiver: &Pubkey, seed_id: u64) -> (r: Vec<Vec<u8>>)
    ensures
        seeds_view(r@) == escrow_seeds(roaster@, receiver@, seed_id),
{
    pda_seeds_vec(escrow_seed_prefix_vec(), roaster, receiver, seed_id)
}

/// The seeds of the roast account: `["roast_escrow", roaster, receiver, seed_id]`.
pub fn roast_escrow_pda_seeds(roaster: &Pubkey, receiver: &Pubkey, seed_id: u64) -> (r: Vec<Vec<u8>>)
    ensures
        seeds_view(r@) == roast_escrow_seeds(roaster@, receiver@, seed_id),
{
    pda_seeds_vec(roast_escrow_seed_prefix_vec(), roaster, receiver, seed_id)
}

/// The seeds the escrow PDA of a stored roast signs with: its seeds and the
/// stored bump.
pub fn escrow_signer_seeds(escrow: &RoastEscrow) -> (r: Vec<Vec<u8>>)
    ensures
        seeds_view(r@) == escrow_signer_seeds_of(*escrow),
{
    let mut r = escrow_pda_seeds(&escrow.roaster, &escrow.receiver, escrow.seed_id);
    let ghost before = r@;
    let bump: Vec<u8> = vec![escrow.bump];
    assert(bump@ =~= seq![escrow.bump]);
    r.push(bump);
    assert(seeds_view(r@) =~= seeds_view(before).push(seq![escrow.bump]));
    r
}

/// The address that the stored roast's seeds and bump derive for its escrow
/// PDA, if they derive one.
pub fn escrow_pda_address(escrow: &RoastEscrow, program_id: &Pubkey) -> (r: Option<Pubkey>)
    ensures
        key_option_view(r) == derived_address(escrow_signer_seeds_of(*escrow), program_id@),
{
    let seeds = escrow_signer_seeds(escrow);
    create_program_address(&seeds, program_id)
}

/// The canonical address and bump of the roast account of these parties.
pub fn find_roast_escrow_address(roaster: &Pubkey, receiver: &Pubkey, seed_id: u64, program_id: &Pubkey) -> (r: Option<(Pubkey, u8)>)
    ensures
        found_view(r) == find_pda(roast_escrow_seeds(roaster@, receiver@, seed_id), program_id@),
{
    let seeds = roast_escrow_pda_seeds(roaster, receiver, seed_id);
    try_find_program_address(&seeds, program_id)
}

/// The canonical address and bump of the escrow PDA of these parties.
pub fn find_escrow_pda_address(roaster: &Pubkey, receiver: &Pubkey, seed_id: u64, program_id: &Pubkey) -> (r: Option<(Pubkey, u8)>)
    ensures
        found_view(r) == find_pda(escrow_seeds(roaster@, receiver@, seed_id), program_id@),
{
    let seeds = escrow_pda_seeds(roaster, receiver, seed_id);
    try_find_program_address(&seeds, program_id)
}

/// The associated token account of `wallet` for `mint`.
pub fn associated_token_address(wallet: &Pubkey, mint: &Pubkey) -> (r: Option<Pubkey>)
    ensures
        key_option_view(r) == associated_address(wallet@, mint@),
{
    let mut seeds: Vec<Vec<u8>> = Vec::new();
    seeds.push(wallet.to_vec());
    seeds.push(crate::pubkey::token_program_key().to_vec());
    seeds.push(mint.to_vec());
    assert(seeds_view(seeds@) =~= associated_token_seeds(wallet@, mint@));
    let program = crate::pubkey::associated_token_program_key();
    match try_find_program_address(&seeds, &program) {
        Some((k, _)) => Some(k),
        None => None,
    }
}

} // verus!
