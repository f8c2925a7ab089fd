//! Deterministic addresses of list and entry records.
use vstd::prelude::*;

use crate::merkle::push_all;

verus! {

/// The canonical program-derived address of `seeds` under `program_id`,
/// with its nonce, or `None` where no nonce yields one.
pub uninterp spec fn program_address_of(seeds: Seq<Seq<u8>>, program_id: Seq<u8>) -> Option<(Seq<u8>, u8)>;

pub open spec fn seed_views(seeds: Seq<Vec<u8>>) -> Seq<Seq<u8>> {
    seeds.map_values(|s: Vec<u8>| s@)
}

pub open spec fn address_view(a: Option<([u8; 32], u8)>) -> Option<(Seq<u8>, u8)> {
    match a {
        Some(p) => Some((p.0@, p.1)),
        None => None,
    }
}

/// Relies on solana_pubkey::Pubkey::try_find_program_address: the first
/// nonce, counting down from 255, whose address lies off the curve, and that
/// address; a value of the seeds and the program id alone.
#[verifier::external_body]
fn try_find_program_address(seeds: &Vec<Vec<u8>>, program_id: &[u8; 32]) -> (r: Option<([u8; 32], u8)>)
    ensures
        address_view(r) == program_address_of(seed_views(seeds@), program_id@),
{
    let parts: Vec<&[u8]> = seeds.iter().map(|s| s.as_slice()).collect();
    let program = solana_pubkey::Pubkey::new_from_array(*program_id);
    solana_pubkey::Pubkey::try_find_program_address(&parts, &program).map(|(a, b)| (a.to_bytes(), b))
}

/// The seed tag of list records, "bouncer".
pub open spec fn list_tag() -> Seq<u8> {
    seq![98u8, 111, 117, 110, 99, 101, 114]
}

/// The seed tag of entry records, "entry".
pub open spec fn entry_tag() -> Seq<u8> {
    seq![101u8, 110, 116, 114, 121]
}

/// The first `n` little-endian bytes of `x`.
pub open spec fn le_bytes(x: nat, n: nat) -> Seq<u8>
    decreases n,
{
    if n == 0 {
        Seq::empty()
    } else {
        seq![(x % 256) as u8] + le_bytes(x / 256, (n - 1) as nat)
    }
}

pub open spec fn list_seeds(creator: Seq<u8>, list_id: u64) -> Seq<Seq<u8>> {
    seq![list_tag(), creator, le_bytes(list_id as nat, 8)]
}

pub open spec fn entry_seeds(list: Seq<u8>, subject: Seq<u8>) -> Seq<Seq<u8>> {
    seq![entry_tag(), list, subject]
}

/// The address and nonce of the list that `creator` numbers `list_id`.
pub open spec fn list_address_of(creator: Seq<u8>, list_id: u64, program_id: Seq<u8>) -> Option<(Seq<u8>, u8)> {
    program_address_of(list_seeds(creator, list_id), program_id)
}

/// The address and nonce of the entry for `subject` on the list at `list`.
pub open spec fn entry_address_of(list: Seq<u8>, subject: Seq<u8>, program_id: Seq<u8>) -> Option<(Seq<u8>, u8)> {
    program_address_of(entry_seeds(list, subject), program_id)
}

fn u64_le_bytes(x: u64) -> (r: Vec<u8>)
    ensures
        r@ == le_bytes(x as nat, 8),
{
    let mut out: Vec<u8> = Vec::new();
    let mut rest: u64 = x;
    let mut i: usize = 0;
    while i < 8
        invariant
            i <= 8,
            out@ + le_bytes(rest as nat, (8 - i) as nat) == le_bytes(x as nat, 8),
        decreases 8 - i,
    {
        let ghost before = out@;
        out.push((rest % 256) as u8);
        assert(le_bytes(rest as nat, (8 - i) as nat) == seq![(rest as nat % 256) as u8] + le_bytes(
            rest as nat / 256,
            (8 - i - 1) as nat,
        ));
        assert(out@ + le_bytes(rest as nat / 256, (8 - i - 1) as nat) =~= before + le_bytes(
            rest as nat,
            (8 - i) as nat,
        ));
        rest = rest / 256;
        i = i + 1;
    }
    assert(out@ =~= out@ + le_bytes(rest as nat, 0));
    out
}

fn bytes_vec(b: &[u8]) -> (r: Vec<u8>)
    ensures
        r@ == b@,
{
    let mut v: Vec<u8> = Vec::new();
    push_all(&mut v, b);
    assert(v@ =~= b@);
    v
}

/// Derives the address of the list that `creator` numbers `list_id`, with
/// its canonical nonce.
pub fn list_address(creator: &[u8; 32], list_id: u64, program_id: &[u8; 32]) -> (r: Option<([u8; 32], u8)>)
    ensures
        address_view(r) == list_address_of(creator@, list_id, program_id@),
{
    let tag: [u8; 7] = [98u8, 111, 117, 110, 99, 101, 114];
    let mut seeds: Vec<Vec<u8>> = Vec::new();
    seeds.push(bytes_vec(&tag));
    seeds.push(bytes_vec(creator));
    seeds.push(u64_le_bytes(list_id));
    assert(seed_views(seeds@) =~= list_seeds(creator@, list_id));
    try_find_program_address(&seeds, program_id)
}

/// Derives the address of the entry for `subject` on the list at `list`,
/// with its canonical nonce.
pub fn entry_address(list: &[u8; 32], subject: &[u8; 32], program_id: &[u8; 32]) -> (r: Option<([u8; 32], u8)>)
    ensures
        address_view(r) == entry_address_of(list@, subject@, program_id@),
{
    let tag: [u8; 5] = [101u8, 110, 116, 114, 121];
    let mut seeds: Vec<Vec<u8>> = Vec::new();
    seeds.push(bytes_vec(&tag));
    seeds.push(bytes_vec(list));
    seeds.push(bytes_vec(subject));
    assert(seed_views(seeds@) =~= entry_seeds(list@, subject@));
    try_find_program_address(&seeds, program_id)
}

} // verus!
