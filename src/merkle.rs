//! Sparse Merkle proof verification.
use vstd::prelude::*;

use crate::digest::{sha256, sha256_of};
use crate::error::BouncerError;
use crate::state::{POLICY_ALLOWLIST, POLICY_BLOCKLIST};

verus! {

/// Largest tree depth a proof may have.
pub const MERKLE_MAX_DEPTH: u8 = 64;

/// Bytes of one sibling hash in a proof.
pub const NODE_LEN: usize = 32;

/// The domain tag "bouncer:leaf", hashed in front of a present leaf.
pub open spec fn leaf_tag() -> Seq<u8> {
    seq![98u8, 111, 117, 110, 99, 101, 114, 58, 108, 101, 97, 102]
}

/// The domain tag "bouncer:node", hashed in front of an internal node.
pub open spec fn node_tag() -> Seq<u8> {
    seq![98u8, 111, 117, 110, 99, 101, 114, 58, 110, 111, 100, 101]
}

/// The canonical absent leaf: 32 zero bytes.
pub open spec fn zero_leaf() -> Seq<u8> {
    Seq::new(32, |_i: int| 0u8)
}

/// The leaf value that marks a key as present.
pub open spec fn present_leaf(key_hash: Seq<u8>) -> Seq<u8> {
    sha256_of(leaf_tag() + key_hash + seq![1u8])
}

/// The hash of an internal node from its two children.
pub open spec fn node_of(left: Seq<u8>, right: Seq<u8>) -> Seq<u8> {
    sha256_of(node_tag() + left + right)
}

/// Bit `i` of a key, least significant bit of each byte first.
pub open spec fn key_bit(key_hash: Seq<u8>, i: int) -> bool {
    (key_hash[i / 8] >> ((i % 8) as u8)) & 1u8 == 1u8
}

/// The leaf a proof starts from: the absent leaf for bit 0, the present leaf
/// otherwise.
pub open spec fn seed_leaf(key_hash: Seq<u8>, leaf_bit: u8) -> Seq<u8> {
    if leaf_bit == 0 {
        zero_leaf()
    } else {
        present_leaf(key_hash)
    }
}

/// The sibling at level `i` of a proof.
pub open spec fn sibling(proof: Seq<u8>, i: int) -> Seq<u8> {
    proof.subrange(i * 32, i * 32 + 32)
}

/// The running hash after the first `n` levels of a proof.
pub open spec fn fold_levels(key_hash: Seq<u8>, leaf_bit: u8, proof: Seq<u8>, n: nat) -> Seq<u8>
    decreases n,
{
    if n == 0 {
        seed_leaf(key_hash, leaf_bit)
    } else {
        let current = fold_levels(key_hash, leaf_bit, proof, (n - 1) as nat);
        let sib = sibling(proof, n - 1);
        if key_bit(key_hash, n - 1) {
            node_of(sib, current)
        } else {
            node_of(current, sib)
        }
    }
}

/// The root that a proof of `depth` levels leads to.
pub open spec fn proof_root(key_hash: Seq<u8>, leaf_bit: u8, proof: Seq<u8>, depth: u8) -> Seq<u8> {
    fold_levels(key_hash, leaf_bit, proof, depth as nat)
}

/// What checking a proof against a root gives.
pub open spec fn verify_outcome(
    root: Seq<u8>,
    depth: u8,
    key_hash: Seq<u8>,
    leaf_bit: u8,
    proof: Seq<u8>,
) -> Result<(), BouncerError> {
    if !(0 < depth && depth <= MERKLE_MAX_DEPTH) || !(leaf_bit == 0 || leaf_bit == 1) {
        Err(BouncerError::InvalidMerkleConfig)
    } else if proof.len() != depth as int * 32 {
        Err(BouncerError::InvalidProofLength)
    } else if proof_root(key_hash, leaf_bit, proof, depth) != root {
        Err(BouncerError::InvalidMerkleProof)
    } else {
        Ok(())
    }
}

fn push_leaf_tag(v: &mut Vec<u8>)
    ensures
        final(v)@ == old(v)@ + leaf_tag(),
{
    let tag: [u8; 12] = [98u8, 111, 117, 110, 99, 101, 114, 58, 108, 101, 97, 102];
    push_all(v, &tag);
}

fn push_node_tag(v: &mut Vec<u8>)
    ensures
        final(v)@ == old(v)@ + node_tag(),
{
    let tag: [u8; 12] = [98u8, 111, 117, 110, 99, 101, 114, 58, 110, 111, 100, 101];
    push_all(v, &tag);
}

/// Appends every byte of `bytes` to `v`.
pub(crate) fn push_all(v: &mut Vec<u8>, bytes: &[u8])
    ensures
        final(v)@ == old(v)@ + bytes@,
{
    let mut i: usize = 0;
    while i < bytes.len()
        invariant
            i <= bytes@.len(),
            v@ == old(v)@ + bytes@.subrange(0, i as int),
        decreases bytes@.len() - i,
    {
        v.push(bytes[i]);
        i = i + 1;
        assert(v@ =~= old(v)@ + bytes@.subrange(0, i as int));
    }
    assert(bytes@.subrange(0, i as int) =~= bytes@);
}

/// The present leaf of a key: `hash("bouncer:leaf" || key_hash || 0x01)`.
fn hash_leaf_one(key_hash: &[u8; 32]) -> (r: [u8; 32])
    ensures
        r@ == present_leaf(key_hash@),
{
    let mut buf: Vec<u8> = Vec::new();
    push_leaf_tag(&mut buf);
    push_all(&mut buf, key_hash);
    buf.push(1u8);
    assert(buf@ =~= leaf_tag() + key_hash@ + seq![1u8]);
    sha256(buf.as_slice())
}

/// An internal node: `hash("bouncer:node" || left || right)`.
fn hash_node(left: &[u8; 32], right: &[u8; 32]) -> (r: [u8; 32])
    ensures
        r@ == node_of(left@, right@),
{
    let mut buf: Vec<u8> = Vec::new();
    push_node_tag(&mut buf);
    push_all(&mut buf, left);
    push_all(&mut buf, right);
    sha256(buf.as_slice())
}

/// Bit `bit_index` of a 32-byte key, least significant bit of each byte first.
fn get_bit_le(bytes: &[u8; 32], bit_index: usize) -> (r: bool)
    requires
        bit_index < 256,
    ensures
        r == key_bit(bytes@, bit_index as int),
{
    let byte = bytes[bit_index / 8];
    ((byte >> ((bit_index % 8) as u8)) & 1u8) == 1u8
}

/// The leaf a proof must start from under a policy: present (1) for an
/// allow-list, absent (0) for a block-list.
pub open spec fn leaf_bit_for(policy: u8) -> Result<u8, BouncerError> {
    if policy == POLICY_ALLOWLIST {
        Ok(1u8)
    } else if policy == POLICY_BLOCKLIST {
        Ok(0u8)
    } else {
        Err(BouncerError::InvalidPolicy)
    }
}

pub fn expected_leaf_value_for_policy(policy: u8) -> (r: Result<u8, BouncerError>)
    ensures
        r == leaf_bit_for(policy),
{
    if policy == POLICY_ALLOWLIST {
        Ok(1)
    } else if policy == POLICY_BLOCKLIST {
        Ok(0)
    } else {
        Err(BouncerError::InvalidPolicy)
    }
}

/// Checks a sparse Merkle proof: starting from the leaf that `leaf_bit` names
/// for `key_hash`, the `depth` siblings of `proof` (leaf level first) must
/// lead to `root`.
pub fn verify_sparse_merkle_proof(
    root: [u8; 32],
    depth: u8,
    key_hash: [u8; 32],
    expected_leaf_value: u8,
    proof: &[u8],
) -> (r: Result<(), BouncerError>)
    ensures
        r == verify_outcome(root@, depth, key_hash@, expected_leaf_value, proof@),
{
    if !(depth > 0 && depth <= MERKLE_MAX_DEPTH) {
        return Err(BouncerError::InvalidMerkleConfig);
    }
    if !(expected_leaf_value == 0 || expected_leaf_value == 1) {
        return Err(BouncerError::InvalidMerkleConfig);
    }
    let depth_usize = depth as usize;
    if proof.len() != depth_usize * NODE_LEN {
        return Err(BouncerError::InvalidProofLength);
    }
    let mut current: [u8; 32] = if expected_leaf_value == 0 {
        [0u8; 32]
    } else {
        hash_leaf_one(&key_hash)
    };
    assert(current@ =~= seed_leaf(key_hash@, expected_leaf_value));
    let mut i: usize = 0;
    while i < depth_usize
        invariant
            i <= depth_usize,
            depth_usize == depth as usize,
            depth_usize <= 64,
            proof@.len() == depth_usize * 32,
            current@ == fold_levels(key_hash@, expected_leaf_value, proof@, i as nat),
        decreases depth_usize - i,
    {
        let mut sib: [u8; 32] = [0u8; 32];
        let mut j: usize = 0;
        while j < NODE_LEN
            invariant
                j <= 32,
                i < depth_usize,
                depth_usize <= 64,
                proof@.len() == depth_usize * 32,
                sib@.len() == 32,
                forall|k: int| 0 <= k < j ==> sib@[k] == proof@[i * 32 + k],
            decreases 32 - j,
        {
            sib[j] = proof[i * NODE_LEN + j];
            j = j + 1;
        }
        assert(sib@ =~= sibling(proof@, i as int));
        let bit = get_bit_le(&key_hash, i);
        current = if bit {
            hash_node(&sib, &current)
        } else {
            hash_node(&current, &sib)
        };
        i = i + 1;
    }
    if !bytes_eq(&current, &root) {
        return Err(BouncerError::InvalidMerkleProof);
    }
    Ok(())
}

/// Whether two 32-byte values are equal, byte for byte.
pub fn bytes_eq(a: &[u8; 32], b: &[u8; 32]) -> (r: bool)
    ensures
        r == (a@ == b@),
{
    let mut i: usize = 0;
    while i < 32
        invariant
            i <= 32,
            a@.len() == 32,
            b@.len() == 32,
            forall|k: int| 0 <= k < i ==> a@[k] == b@[k],
        decreases 32 - i,
    {
        if a[i] != b[i] {
            return false;
        }
        i = i + 1;
    }
    assert(a@ =~= b@);
    true
}

} // verus!
