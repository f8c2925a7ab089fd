//! The operations of the engine. Each checks its records eagerly and either
//! fails with nothing changed or applies its whole effect and reports it.
use vstd::prelude::*;

use vstd::array::array_view;

use crate::accounts::{
    AccountRecord, AssertAllowed, CreateList, EntryAccount, FreezeList, ListAccount, RemoveEntry,
    SetAuthority, SetMerkleConfig, SetPolicy, UpsertEntry,
};
use crate::address::{entry_address, entry_address_of, list_address, list_address_of};
use crate::error::BouncerError;
use crate::codec::{decode_entry, entry_decodable};
use crate::digest::{sha256, sha256_of};
use crate::merkle::{
    bytes_eq, expected_leaf_value_for_policy, leaf_bit_for, verify_outcome,
    verify_sparse_merkle_proof, MERKLE_MAX_DEPTH,
};
use crate::state::{
    AuthorityChanged, Entry, EntryRemoved, EntryUpserted, List, ListCreated, ListFrozen,
    MerkleConfigSet, PolicyChanged, ENTRY_STATUS_ALLOW, ENTRY_STATUS_BLOCK, ENTRY_STATUS_UNSET, ENTRY_VERSION,
    FLAG_FROZEN, LIST_VERSION, POLICY_ALLOWLIST, POLICY_BLOCKLIST, STORAGE_DIRECT_PDA,
    STORAGE_MERKLE_ROOT,
};

verus! {

/// The 96-byte configuration whose bytes are `s`.
pub open spec fn config_of(s: Seq<u8>) -> [u8; 96] {
    choose|c: [u8; 96]| c@ == s
}

/// A configuration is the one its bytes name.
pub proof fn lemma_config_of(c: [u8; 96])
    ensures
        config_of(c@) == c,
{
    assert(exists|d: [u8; 96]| #[trigger] array_view(d) == c@) by {
        assert(array_view(c) == c@);
    }
    let d = config_of(c@);
    assert(d@ == c@);
    assert forall|i: int| 0 <= i < 96 implies d[i] == c[i] by {
        assert(d@[i] == c@[i]);
    }
    assert(d =~= c);
}

pub open spec fn valid_policy(p: u8) -> bool {
    p == POLICY_ALLOWLIST || p == POLICY_BLOCKLIST
}

/// Whether a list slot holds a list stored at the address that its creator,
/// number and stored nonce derive.
pub open spec fn list_at_home(acct: ListAccount, program_id: Seq<u8>) -> bool {
    match acct.data {
        Some(l) => list_address_of(l.creator@, l.list_id, program_id) == Some((acct.key@, l.bump)),
        None => false,
    }
}

/// The first check that fails when `signer` acts on a list, if any: the
/// slot must hold a list at its own address, the signer must be its
/// authority, and the list must not be frozen.
pub open spec fn admin_gate(acct: ListAccount, signer: Seq<u8>, program_id: Seq<u8>) -> Option<BouncerError> {
    match acct.data {
        None => Some(BouncerError::AccountNotInitialized),
        Some(l) => if !list_at_home(acct, program_id) {
            Some(BouncerError::SeedsMismatch)
        } else if l.authority@ != signer {
            Some(BouncerError::Unauthorized)
        } else if l.frozen() {
            Some(BouncerError::Frozen)
        } else {
            None
        },
    }
}

/// `admin_gate`, and then the list's storage kind must be `kind`.
pub open spec fn kind_gate(acct: ListAccount, signer: Seq<u8>, program_id: Seq<u8>, kind: u8) -> Option<BouncerError> {
    match admin_gate(acct, signer, program_id) {
        Some(e) => Some(e),
        None => if acct.data.unwrap().storage_kind != kind {
            Some(BouncerError::InvalidStorageKind)
        } else {
            None
        },
    }
}

fn check_list_at_home(acct: &ListAccount, program_id: &[u8; 32]) -> (r: Result<List, BouncerError>)
    ensures
        match acct.data {
            None => r == Err::<List, BouncerError>(BouncerError::AccountNotInitialized),
            Some(l) => if list_at_home(*acct, program_id@) {
                r == Ok::<List, BouncerError>(l)
            } else {
                r == Err::<List, BouncerError>(BouncerError::SeedsMismatch)
            },
        },
{
    match acct.data {
        None => Err(BouncerError::AccountNotInitialized),
        Some(l) => match list_address(&l.creator, l.list_id, program_id) {
            None => Err(BouncerError::SeedsMismatch),
            Some((addr, bump)) => {
                if bytes_eq(&addr, &acct.key) && bump == l.bump {
                    Ok(l)
                } else {
                    Err(BouncerError::SeedsMismatch)
                }
            },
        },
    }
}

fn check_admin(acct: &ListAccount, signer: &[u8; 32], program_id: &[u8; 32]) -> (r: Result<List, BouncerError>)
    ensures
        match admin_gate(*acct, signer@, program_id@) {
            Some(e) => r == Err::<List, BouncerError>(e),
            None => r == Ok::<List, BouncerError>(acct.data.unwrap()),
        },
{
    let l = check_list_at_home(acct, program_id)?;
    if !bytes_eq(&l.authority, signer) {
        return Err(BouncerError::Unauthorized);
    }
    if l.is_frozen() {
        return Err(BouncerError::Frozen);
    }
    Ok(l)
}

fn check_kind(acct: &ListAccount, signer: &[u8; 32], program_id: &[u8; 32], kind: u8) -> (r: Result<List, BouncerError>)
    ensures
        match kind_gate(*acct, signer@, program_id@, kind) {
            Some(e) => r == Err::<List, BouncerError>(e),
            None => r == Ok::<List, BouncerError>(acct.data.unwrap()),
        },
{
    let l = check_admin(acct, signer, program_id)?;
    if l.storage_kind != kind {
        return Err(BouncerError::InvalidStorageKind);
    }
    Ok(l)
}

/// The list slot after `create_list`, or the error it fails with.
pub open spec fn create_list_next(
    acct: ListAccount,
    payer: [u8; 32],
    authority: [u8; 32],
    program_id: Seq<u8>,
    list_id: u64,
    policy: u8,
    storage_kind: u8,
    flags: u16,
) -> Result<ListAccount, BouncerError> {
    match list_address_of(payer@, list_id, program_id) {
        None => Err(BouncerError::SeedsMismatch),
        Some(derived) => if derived.0 != acct.key@ {
            Err(BouncerError::SeedsMismatch)
        } else if acct.data is Some {
            Err(BouncerError::AccountInUse)
        } else if !valid_policy(policy) {
            Err(BouncerError::InvalidPolicy)
        } else if !(storage_kind == STORAGE_DIRECT_PDA || storage_kind == STORAGE_MERKLE_ROOT) {
            Err(BouncerError::InvalidStorageKind)
        } else {
            Ok(
                ListAccount {
                    data: Some(
                        List {
                            version: LIST_VERSION,
                            bump: derived.1,
                            authority,
                            creator: payer,
                            list_id,
                            policy,
                            storage_kind,
                            flags,
                            entry_count: 0,
                            reserved0: 0,
                            storage_config: config_of(Seq::new(96, |_i: int| 0u8)),
                        },
                    ),
                    ..acct
                },
            )
        },
    }
}

/// Creates the list that the payer numbers `list_id` in the empty slot at
/// its derived address. The payer becomes the creator; the list starts with
/// no entries and a zeroed storage configuration.
pub fn create_list(
    ctx: &mut CreateList,
    program_id: &[u8; 32],
    list_id: u64,
    policy: u8,
    storage_kind: u8,
    flags: u16,
) -> (r: Result<ListCreated, BouncerError>)
    ensures
        match create_list_next(old(ctx).list, old(ctx).payer, old(ctx).authority, program_id@, list_id, policy, storage_kind, flags) {
            Ok(l) => *final(ctx) == (CreateList { list: l, ..*old(ctx) }) && r == Ok::<ListCreated, BouncerError>(
                ListCreated {
                    list: old(ctx).list.key,
                    creator: old(ctx).payer,
                    authority: old(ctx).authority,
                    list_id,
                    policy,
                    storage_kind,
                },
            ),
            Err(e) => *final(ctx) == *old(ctx) && r == Err::<ListCreated, BouncerError>(e),
        },
{
    let (addr, bump) = match list_address(&ctx.payer, list_id, program_id) {
        None => return Err(BouncerError::SeedsMismatch),
        Some(d) => d,
    };
    if !bytes_eq(&addr, &ctx.list.key) {
        return Err(BouncerError::SeedsMismatch);
    }
    if ctx.list.data.is_some() {
        return Err(BouncerError::AccountInUse);
    }
    if !(policy == POLICY_ALLOWLIST || policy == POLICY_BLOCKLIST) {
        return Err(BouncerError::InvalidPolicy);
    }
    if !(storage_kind == STORAGE_DIRECT_PDA || storage_kind == STORAGE_MERKLE_ROOT) {
        return Err(BouncerError::InvalidStorageKind);
    }
    let config: [u8; 96] = [0u8; 96];
    assert(config@ =~= Seq::new(96, |_i: int| 0u8));
    proof {
        lemma_config_of(config);
    }
    let list = List {
        version: LIST_VERSION,
        bump,
        authority: ctx.authority,
        creator: ctx.payer,
        list_id,
        policy,
        storage_kind,
        flags,
        entry_count: 0,
        reserved0: 0,
        storage_config: config,
    };
    ctx.list.data = Some(list);
    Ok(
        ListCreated {
            list: ctx.list.key,
            creator: ctx.payer,
            authority: ctx.authority,
            list_id,
            policy,
            storage_kind,
        },
    )
}

/// The list slot after `set_authority`, or the error it fails with.
pub open spec fn set_authority_next(acct: ListAccount, signer: Seq<u8>, program_id: Seq<u8>, new_authority: [u8; 32]) -> Result<ListAccount, BouncerError> {
    match admin_gate(acct, signer, program_id) {
        Some(e) => Err(e),
        None => Ok(ListAccount { data: Some(List { authority: new_authority, ..acct.data.unwrap() }), ..acct }),
    }
}

/// Hands the list to `new_authority`.
pub fn set_authority(ctx: &mut SetAuthority, program_id: &[u8; 32], new_authority: [u8; 32]) -> (r: Result<AuthorityChanged, BouncerError>)
    ensures
        match set_authority_next(old(ctx).list, old(ctx).authority@, program_id@, new_authority) {
            Ok(l) => *final(ctx) == (SetAuthority { list: l, ..*old(ctx) }) && r == Ok::<AuthorityChanged, BouncerError>(
                AuthorityChanged {
                    list: old(ctx).list.key,
                    old_authority: old(ctx).list.data.unwrap().authority,
                    new_authority,
                },
            ),
            Err(e) => *final(ctx) == *old(ctx) && r == Err::<AuthorityChanged, BouncerError>(e),
        },
{
    let mut list = check_admin(&ctx.list, &ctx.authority, program_id)?;
    let old_authority = list.authority;
    list.authority = new_authority;
    ctx.list.data = Some(list);
    Ok(AuthorityChanged { list: ctx.list.key, old_authority, new_authority })
}

/// The list slot after `set_policy`, or the error it fails with.
pub open spec fn set_policy_next(acct: ListAccount, signer: Seq<u8>, program_id: Seq<u8>, new_policy: u8) -> Result<ListAccount, BouncerError> {
    match admin_gate(acct, signer, program_id) {
        Some(e) => Err(e),
        None => if !valid_policy(new_policy) {
            Err(BouncerError::InvalidPolicy)
        } else {
            Ok(ListAccount { data: Some(List { policy: new_policy, ..acct.data.unwrap() }), ..acct })
        },
    }
}

/// Changes the list's policy.
pub fn set_policy(ctx: &mut SetPolicy, program_id: &[u8; 32], new_policy: u8) -> (r: Result<PolicyChanged, BouncerError>)
    ensures
        match set_policy_next(old(ctx).list, old(ctx).authority@, program_id@, new_policy) {
            Ok(l) => *final(ctx) == (SetPolicy { list: l, ..*old(ctx) }) && r == Ok::<PolicyChanged, BouncerError>(
                PolicyChanged {
                    list: old(ctx).list.key,
                    old_policy: old(ctx).list.data.unwrap().policy,
                    new_policy,
                },
            ),
            Err(e) => *final(ctx) == *old(ctx) && r == Err::<PolicyChanged, BouncerError>(e),
        },
{
    let mut list = check_admin(&ctx.list, &ctx.authority, program_id)?;
    if !(new_policy == POLICY_ALLOWLIST || new_policy == POLICY_BLOCKLIST) {
        return Err(BouncerError::InvalidPolicy);
    }
    let old_policy = list.policy;
    list.policy = new_policy;
    ctx.list.data = Some(list);
    Ok(PolicyChanged { list: ctx.list.key, old_policy, new_policy })
}

/// The list slot after `freeze_list`, or the error it fails with.
pub open spec fn freeze_list_next(acct: ListAccount, signer: Seq<u8>, program_id: Seq<u8>) -> Result<ListAccount, BouncerError> {
    match admin_gate(acct, signer, program_id) {
        Some(e) => Err(e),
        None => {
            let l = acct.data.unwrap();
            Ok(ListAccount { data: Some(List { flags: l.flags | FLAG_FROZEN, ..l }), ..acct })
        },
    }
}

/// Sets the frozen flag, for good: no operation clears it, and every
/// mutation of a frozen list fails.
pub fn freeze_list(ctx: &mut FreezeList, program_id: &[u8; 32]) -> (r: Result<ListFrozen, BouncerError>)
    ensures
        match freeze_list_next(old(ctx).list, old(ctx).authority@, program_id@) {
            Ok(l) => *final(ctx) == (FreezeList { list: l, ..*old(ctx) }) && r == Ok::<ListFrozen, BouncerError>(
                ListFrozen { list: old(ctx).list.key },
            ),
            Err(e) => *final(ctx) == *old(ctx) && r == Err::<ListFrozen, BouncerError>(e),
        },
{
    let mut list = check_admin(&ctx.list, &ctx.authority, program_id)?;
    list.flags = list.flags | FLAG_FROZEN;
    ctx.list.data = Some(list);
    Ok(ListFrozen { list: ctx.list.key })
}

/// The storage configuration holding Merkle `depth` and `root`, the rest of
/// `config` kept.
pub open spec fn merkle_config_of(config: [u8; 96], depth: u8, root: [u8; 32]) -> [u8; 96] {
    config_of(seq![depth] + root@ + config@.subrange(33, 96))
}

/// The list slot after `set_merkle_config`, or the error it fails with.
pub open spec fn set_merkle_config_next(acct: ListAccount, signer: Seq<u8>, program_id: Seq<u8>, depth: u8, root: [u8; 32]) -> Result<ListAccount, BouncerError> {
    match kind_gate(acct, signer, program_id, STORAGE_MERKLE_ROOT) {
        Some(e) => Err(e),
        None => if !(0 < depth && depth <= MERKLE_MAX_DEPTH) {
            Err(BouncerError::InvalidMerkleConfig)
        } else {
            let l = acct.data.unwrap();
            Ok(
                ListAccount {
                    data: Some(List { storage_config: merkle_config_of(l.storage_config, depth, root), ..l }),
                    ..acct
                },
            )
        },
    }
}

/// Replaces the Merkle depth and root of a list kept as a Merkle root.
pub fn set_merkle_config(ctx: &mut SetMerkleConfig, program_id: &[u8; 32], depth: u8, root: [u8; 32]) -> (r: Result<MerkleConfigSet, BouncerError>)
    ensures
        match set_merkle_config_next(old(ctx).list, old(ctx).authority@, program_id@, depth, root) {
            Ok(l) => *final(ctx) == (SetMerkleConfig { list: l, ..*old(ctx) }) && r == Ok::<MerkleConfigSet, BouncerError>(
                MerkleConfigSet { list: old(ctx).list.key, authority: old(ctx).authority, depth, root },
            ),
            Err(e) => *final(ctx) == *old(ctx) && r == Err::<MerkleConfigSet, BouncerError>(e),
        },
{
    let mut list = check_kind(&ctx.list, &ctx.authority, program_id, STORAGE_MERKLE_ROOT)?;
    if !(depth > 0 && depth <= MERKLE_MAX_DEPTH) {
        return Err(BouncerError::InvalidMerkleConfig);
    }
    list.set_merkle_config(depth, root);
    proof {
        lemma_config_of(list.storage_config);
    }
    ctx.list.data = Some(list);
    Ok(MerkleConfigSet { list: ctx.list.key, authority: ctx.authority, depth, root })
}

/// Whether an entry record names the list and subject it is expected to.
pub open spec fn entry_matches(e: Entry, list: Seq<u8>, subject: Seq<u8>) -> bool {
    e.list@ == list && e.subject@ == subject
}

/// The list and entry slots after `upsert_entry`, or the error it fails with.
pub open spec fn upsert_entry_next(
    list: ListAccount,
    entry: EntryAccount,
    signer: Seq<u8>,
    program_id: Seq<u8>,
    subject: [u8; 32],
    status: u8,
) -> Result<(ListAccount, EntryAccount), BouncerError> {
    match kind_gate(list, signer, program_id, STORAGE_DIRECT_PDA) {
        Some(e) => Err(e),
        None => match entry_address_of(list.key@, subject@, program_id) {
            None => Err(BouncerError::SeedsMismatch),
            Some(derived) => if derived.0 != entry.key@ {
                Err(BouncerError::SeedsMismatch)
            } else if !(status == ENTRY_STATUS_ALLOW || status == ENTRY_STATUS_BLOCK) {
                Err(BouncerError::InvalidStatus)
            } else {
                let l = list.data.unwrap();
                match entry.data {
                    None => Ok(
                        (
                            ListAccount {
                                data: Some(List { entry_count: l.entry_count.saturating_add(1), ..l }),
                                ..list
                            },
                            EntryAccount {
                                data: Some(
                                    Entry {
                                        version: ENTRY_VERSION,
                                        bump: derived.1,
                                        status,
                                        reserved: 0,
                                        list: list.key,
                                        subject,
                                    },
                                ),
                                ..entry
                            },
                        ),
                    ),
                    Some(e) => if !entry_matches(e, list.key@, subject@) {
                        Err(BouncerError::EntryDataMismatch)
                    } else {
                        Ok((list, EntryAccount { data: Some(Entry { status, ..e }), ..entry }))
                    },
                }
            },
        },
    }
}

/// Sets the status of `subject` on a list kept as direct records, creating
/// its entry (and counting it) when the slot is empty.
pub fn upsert_entry(ctx: &mut UpsertEntry, program_id: &[u8; 32], subject: [u8; 32], status: u8) -> (r: Result<EntryUpserted, BouncerError>)
    ensures
        match upsert_entry_next(old(ctx).list, old(ctx).entry, old(ctx).authority@, program_id@, subject, status) {
            Ok(p) => *final(ctx) == (UpsertEntry { list: p.0, entry: p.1, ..*old(ctx) }) && r == Ok::<EntryUpserted, BouncerError>(
                EntryUpserted { list: old(ctx).list.key, subject, status },
            ),
            Err(e) => *final(ctx) == *old(ctx) && r == Err::<EntryUpserted, BouncerError>(e),
        },
{
    let mut list = check_kind(&ctx.list, &ctx.authority, program_id, STORAGE_DIRECT_PDA)?;
    let (addr, bump) = match entry_address(&ctx.list.key, &subject, program_id) {
        None => return Err(BouncerError::SeedsMismatch),
        Some(d) => d,
    };
    if !bytes_eq(&addr, &ctx.entry.key) {
        return Err(BouncerError::SeedsMismatch);
    }
    if !(status == ENTRY_STATUS_ALLOW || status == ENTRY_STATUS_BLOCK) {
        return Err(BouncerError::InvalidStatus);
    }
    match ctx.entry.data {
        None => {
            list.entry_count = list.entry_count.saturating_add(1);
            ctx.list.data = Some(list);
            ctx.entry.data = Some(
                Entry { version: ENTRY_VERSION, bump, status, reserved: 0, list: ctx.list.key, subject },
            );
        },
        Some(e) => {
            if !bytes_eq(&e.list, &ctx.list.key) || !bytes_eq(&e.subject, &subject) {
                return Err(BouncerError::EntryDataMismatch);
            }
            let mut updated = e;
            updated.status = status;
            ctx.entry.data = Some(updated);
        },
    }
    Ok(EntryUpserted { list: ctx.list.key, subject, status })
}

/// The list and entry slots after `remove_entry`, or the error it fails with.
pub open spec fn remove_entry_next(
    list: ListAccount,
    entry: EntryAccount,
    signer: Seq<u8>,
    program_id: Seq<u8>,
    subject: [u8; 32],
) -> Result<(ListAccount, EntryAccount), BouncerError> {
    match kind_gate(list, signer, program_id, STORAGE_DIRECT_PDA) {
        Some(e) => Err(e),
        None => match entry.data {
            None => Err(BouncerError::AccountNotInitialized),
            Some(e) => if entry_address_of(list.key@, subject@, program_id) != Some((entry.key@, e.bump)) {
                Err(BouncerError::SeedsMismatch)
            } else if !entry_matches(e, list.key@, subject@) {
                Err(BouncerError::EntryDataMismatch)
            } else {
                let l = list.data.unwrap();
                Ok(
                    (
                        ListAccount { data: Some(List { entry_count: l.entry_count.saturating_sub(1), ..l }), ..list },
                        EntryAccount { data: None, ..entry },
                    ),
                )
            },
        },
    }
}

/// Removes the entry of `subject` and uncounts it; the count never drops
/// below zero.
pub fn remove_entry(ctx: &mut RemoveEntry, program_id: &[u8; 32], subject: [u8; 32]) -> (r: Result<EntryRemoved, BouncerError>)
    ensures
        match remove_entry_next(old(ctx).list, old(ctx).entry, old(ctx).authority@, program_id@, subject) {
            Ok(p) => *final(ctx) == (RemoveEntry { list: p.0, entry: p.1, ..*old(ctx) }) && r == Ok::<EntryRemoved, BouncerError>(
                EntryRemoved { list: old(ctx).list.key, subject },
            ),
            Err(e) => *final(ctx) == *old(ctx) && r == Err::<EntryRemoved, BouncerError>(e),
        },
{
    let mut list = check_kind(&ctx.list, &ctx.authority, program_id, STORAGE_DIRECT_PDA)?;
    let e = match ctx.entry.data {
        None => return Err(BouncerError::AccountNotInitialized),
        Some(e) => e,
    };
    match entry_address(&ctx.list.key, &subject, program_id) {
        None => return Err(BouncerError::SeedsMismatch),
        Some((addr, bump)) => {
            if !bytes_eq(&addr, &ctx.entry.key) || bump != e.bump {
                return Err(BouncerError::SeedsMismatch);
            }
        },
    }
    if !bytes_eq(&e.list, &ctx.list.key) || !bytes_eq(&e.subject, &subject) {
        return Err(BouncerError::EntryDataMismatch);
    }
    list.entry_count = list.entry_count.saturating_sub(1);
    ctx.list.data = Some(list);
    ctx.entry.data = None;
    Ok(EntryRemoved { list: ctx.list.key, subject })
}

/// The status that a direct-records assertion reads: unset where no record
/// is supplied, else the supplied record's, once it is shown to be the
/// entry of `subject` on the list at `list_key`.
pub open spec fn supplied_status(
    expected: Seq<u8>,
    list_key: Seq<u8>,
    subject: Seq<u8>,
    program_id: Seq<u8>,
    entry: Option<AccountRecord>,
) -> Result<u8, BouncerError> {
    match entry {
        None => Ok(ENTRY_STATUS_UNSET),
        Some(a) => if a.key@ != expected {
            Err(BouncerError::EntryPdaMismatch)
        } else if a.owner@ != program_id {
            Err(BouncerError::EntryAccountInvalidOwner)
        } else if !entry_decodable(a.data@) {
            Err(BouncerError::EntryDataMismatch)
        } else if a.data@.subrange(12, 44) != list_key || a.data@.subrange(44, 76) != subject {
            Err(BouncerError::EntryDataMismatch)
        } else {
            Ok(a.data@[10])
        },
    }
}

/// Whether a status passes a policy: an allow-list passes only explicit
/// allows, a block-list everything but explicit blocks.
pub open spec fn status_passes(policy: u8, status: u8) -> bool {
    if policy == POLICY_ALLOWLIST {
        status == ENTRY_STATUS_ALLOW
    } else {
        status != ENTRY_STATUS_BLOCK
    }
}

/// The decision for a list kept as direct records.
pub open spec fn direct_outcome(
    list_key: Seq<u8>,
    policy: u8,
    program_id: Seq<u8>,
    subject: Seq<u8>,
    proof: Seq<u8>,
    entry: Option<AccountRecord>,
) -> Result<(), BouncerError> {
    if proof.len() != 0 {
        Err(BouncerError::ProofNotSupported)
    } else {
        match entry_address_of(list_key, subject, program_id) {
            None => Err(BouncerError::SeedsMismatch),
            Some(derived) => match supplied_status(derived.0, list_key, subject, program_id, entry) {
                Err(e) => Err(e),
                Ok(status) => if status_passes(policy, status) {
                    Ok(())
                } else {
                    Err(BouncerError::NotAllowed)
                },
            },
        }
    }
}

/// The decision of `assert_allowed`.
pub open spec fn assert_outcome(
    acct: ListAccount,
    program_id: Seq<u8>,
    subject: Seq<u8>,
    proof: Seq<u8>,
    entry: Option<AccountRecord>,
) -> Result<(), BouncerError> {
    match acct.data {
        None => Err(BouncerError::AccountNotInitialized),
        Some(l) => if !list_at_home(acct, program_id) {
            Err(BouncerError::SeedsMismatch)
        } else if !valid_policy(l.policy) {
            Err(BouncerError::InvalidPolicy)
        } else if l.storage_kind == STORAGE_DIRECT_PDA {
            direct_outcome(acct.key@, l.policy, program_id, subject, proof, entry)
        } else if l.storage_kind == STORAGE_MERKLE_ROOT {
            verify_outcome(l.root(), l.depth(), sha256_of(subject), leaf_bit_for(l.policy).unwrap(), proof)
        } else {
            Err(BouncerError::InvalidStorageKind)
        },
    }
}

fn read_supplied_status(
    expected: &[u8; 32],
    list_key: &[u8; 32],
    subject: &[u8; 32],
    program_id: &[u8; 32],
    entry: Option<&AccountRecord>,
) -> (r: Result<u8, BouncerError>)
    ensures
        r == supplied_status(expected@, list_key@, subject@, program_id@, match entry {
            Some(a) => Some(*a),
            None => None,
        }),
{
    match entry {
        None => Ok(ENTRY_STATUS_UNSET),
        Some(a) => {
            if !bytes_eq(&a.key, expected) {
                return Err(BouncerError::EntryPdaMismatch);
            }
            if !bytes_eq(&a.owner, program_id) {
                return Err(BouncerError::EntryAccountInvalidOwner);
            }
            match decode_entry(a.data.as_slice()) {
                None => Err(BouncerError::EntryDataMismatch),
                Some(e) => {
                    if !bytes_eq(&e.list, list_key) || !bytes_eq(&e.subject, subject) {
                        return Err(BouncerError::EntryDataMismatch);
                    }
                    Ok(e.status)
                },
            }
        },
    }
}

/// Decides whether `subject` is allowed by the list, without changing
/// anything. A list kept as direct records takes no proof and reads the
/// subject's entry when the caller supplies it (absence means unset); a list
/// kept as a Merkle root takes a proof for the hash of the subject, of
/// inclusion under an allow-list and of the absent leaf under a block-list.
pub fn assert_allowed(
    ctx: &AssertAllowed,
    program_id: &[u8; 32],
    subject: [u8; 32],
    proof: &Vec<u8>,
    entry: Option<&AccountRecord>,
) -> (r: Result<(), BouncerError>)
    ensures
        r == assert_outcome(ctx.list, program_id@, subject@, proof@, match entry {
            Some(a) => Some(*a),
            None => None,
        }),
{
    let list = check_list_at_home(&ctx.list, program_id)?;
    if !(list.policy == POLICY_ALLOWLIST || list.policy == POLICY_BLOCKLIST) {
        return Err(BouncerError::InvalidPolicy);
    }
    if list.storage_kind == STORAGE_DIRECT_PDA {
        if proof.len() != 0 {
            return Err(BouncerError::ProofNotSupported);
        }
        let (expected, _bump) = match entry_address(&ctx.list.key, &subject, program_id) {
            None => return Err(BouncerError::SeedsMismatch),
            Some(d) => d,
        };
        let status = read_supplied_status(&expected, &ctx.list.key, &subject, program_id, entry)?;
        let allowed = if list.policy == POLICY_ALLOWLIST {
            status == ENTRY_STATUS_ALLOW
        } else {
            status != ENTRY_STATUS_BLOCK
        };
        if !allowed {
            return Err(BouncerError::NotAllowed);
        }
        Ok(())
    } else if list.storage_kind == STORAGE_MERKLE_ROOT {
        let depth = list.merkle_depth();
        let root = list.merkle_root();
        let leaf_bit = expected_leaf_value_for_policy(list.policy)?;
        let key_hash = sha256(&subject);
        verify_sparse_merkle_proof(root, depth, key_hash, leaf_bit, proof.as_slice())
    } else {
        Err(BouncerError::InvalidStorageKind)
    }
}

} // verus!
