//! Properties that relate several operations, proved over their outcome
//! specifications.
use vstd::prelude::*;

use crate::accounts::{AccountRecord, EntryAccount, ListAccount};
use crate::address::entry_address_of;
use crate::codec::{entry_bytes, lemma_entry_round_trip};
use crate::error::BouncerError;
use crate::instructions::{
    assert_outcome, create_list_next, freeze_list_next, list_at_home, remove_entry_next,
    set_authority_next, set_merkle_config_next, set_policy_next, upsert_entry_next,
};
use crate::merkle::{proof_root, verify_outcome, MERKLE_MAX_DEPTH};
use crate::state::{
    ENTRY_STATUS_ALLOW, ENTRY_STATUS_BLOCK, FLAG_FROZEN, POLICY_ALLOWLIST, POLICY_BLOCKLIST,
    STORAGE_DIRECT_PDA,
};

verus! {

/// A list can be created only once: repeating a successful `create_list`
/// with the same records and inputs fails, because the slot is taken.
pub proof fn law_create_list_once(
    acct: ListAccount,
    payer: [u8; 32],
    authority: [u8; 32],
    program_id: Seq<u8>,
    list_id: u64,
    policy: u8,
    storage_kind: u8,
    flags: u16,
)
    requires
        create_list_next(acct, payer, authority, program_id, list_id, policy, storage_kind, flags) is Ok,
    ensures
        create_list_next(
            create_list_next(acct, payer, authority, program_id, list_id, policy, storage_kind, flags).unwrap(),
            payer,
            authority,
            program_id,
            list_id,
            policy,
            storage_kind,
            flags,
        ) == Err::<ListAccount, BouncerError>(BouncerError::AccountInUse),
{
}

/// Under an allow-list kept as direct records, a subject whose entry was
/// just set to allow passes when that entry is supplied, and one just set to
/// block is refused with `NotAllowed`.
pub proof fn law_allowlist_follows_entry(
    list: ListAccount,
    entry: EntryAccount,
    signer: Seq<u8>,
    program_id: Seq<u8>,
    subject: [u8; 32],
    status: u8,
    record: AccountRecord,
)
    requires
        list.data matches Some(l) && l.policy == POLICY_ALLOWLIST,
        upsert_entry_next(list, entry, signer, program_id, subject, status) is Ok,
        record.key == upsert_entry_next(list, entry, signer, program_id, subject, status).unwrap().1.key,
        record.owner@ == program_id,
        record.data@ == entry_bytes(upsert_entry_next(list, entry, signer, program_id, subject, status).unwrap().1.data.unwrap()),
    ensures
        status == ENTRY_STATUS_ALLOW ==> assert_outcome(
            upsert_entry_next(list, entry, signer, program_id, subject, status).unwrap().0,
            program_id,
            subject@,
            Seq::empty(),
            Some(record),
        ) == Ok::<(), BouncerError>(()),
        status == ENTRY_STATUS_BLOCK ==> assert_outcome(
            upsert_entry_next(list, entry, signer, program_id, subject, status).unwrap().0,
            program_id,
            subject@,
            Seq::empty(),
            Some(record),
        ) == Err::<(), BouncerError>(BouncerError::NotAllowed),
{
    let e = upsert_entry_next(list, entry, signer, program_id, subject, status).unwrap().1.data.unwrap();
    lemma_entry_round_trip(e);
}

/// Under a block-list kept as direct records, a subject whose entry was just
/// set to block is refused with `NotAllowed` when that entry is supplied,
/// and one just set to allow passes.
pub proof fn law_blocklist_follows_entry(
    list: ListAccount,
    entry: EntryAccount,
    signer: Seq<u8>,
    program_id: Seq<u8>,
    subject: [u8; 32],
    status: u8,
    record: AccountRecord,
)
    requires
        list.data matches Some(l) && l.policy == POLICY_BLOCKLIST,
        upsert_entry_next(list, entry, signer, program_id, subject, status) is Ok,
        record.key == upsert_entry_next(list, entry, signer, program_id, subject, status).unwrap().1.key,
        record.owner@ == program_id,
        record.data@ == entry_bytes(upsert_entry_next(list, entry, signer, program_id, subject, status).unwrap().1.data.unwrap()),
    ensures
        status == ENTRY_STATUS_ALLOW ==> assert_outcome(
            upsert_entry_next(list, entry, signer, program_id, subject, status).unwrap().0,
            program_id,
            subject@,
            Seq::empty(),
            Some(record),
        ) == Ok::<(), BouncerError>(()),
        status == ENTRY_STATUS_BLOCK ==> assert_outcome(
            upsert_entry_next(list, entry, signer, program_id, subject, status).unwrap().0,
            program_id,
            subject@,
            Seq::empty(),
            Some(record),
        ) == Err::<(), BouncerError>(BouncerError::NotAllowed),
{
    let e = upsert_entry_next(list, entry, signer, program_id, subject, status).unwrap().1.data.unwrap();
    lemma_entry_round_trip(e);
}

/// With no entry supplied, a list kept as direct records refuses every
/// subject under an allow-list and passes every subject under a block-list.
pub proof fn law_absent_entry(list: ListAccount, program_id: Seq<u8>, subject: Seq<u8>)
    requires
        list_at_home(list, program_id),
        list.data matches Some(l) && l.storage_kind == STORAGE_DIRECT_PDA && (l.policy == POLICY_ALLOWLIST
            || l.policy == POLICY_BLOCKLIST),
        entry_address_of(list.key@, subject, program_id) is Some,
    ensures
        list.data.unwrap().policy == POLICY_ALLOWLIST ==> assert_outcome(list, program_id, subject, Seq::empty(), None)
            == Err::<(), BouncerError>(BouncerError::NotAllowed),
        list.data.unwrap().policy == POLICY_BLOCKLIST ==> assert_outcome(list, program_id, subject, Seq::empty(), None)
            == Ok::<(), BouncerError>(()),
{
}

/// Once its authority freezes a list, every change that authority then
/// asks for fails with `Frozen`, freezing again included.
pub proof fn law_frozen_refuses_changes(
    list: ListAccount,
    signer: Seq<u8>,
    program_id: Seq<u8>,
    new_authority: [u8; 32],
    new_policy: u8,
    entry: EntryAccount,
    subject: [u8; 32],
    status: u8,
    depth: u8,
    root: [u8; 32],
)
    requires
        freeze_list_next(list, signer, program_id) is Ok,
    ensures
        ({
            let frozen = freeze_list_next(list, signer, program_id).unwrap();
            &&& set_authority_next(frozen, signer, program_id, new_authority) == Err::<ListAccount, BouncerError>(BouncerError::Frozen)
            &&& set_policy_next(frozen, signer, program_id, new_policy) == Err::<ListAccount, BouncerError>(BouncerError::Frozen)
            &&& freeze_list_next(frozen, signer, program_id) == Err::<ListAccount, BouncerError>(BouncerError::Frozen)
            &&& upsert_entry_next(frozen, entry, signer, program_id, subject, status) == Err::<(ListAccount, EntryAccount), BouncerError>(BouncerError::Frozen)
            &&& remove_entry_next(frozen, entry, signer, program_id, subject) == Err::<(ListAccount, EntryAccount), BouncerError>(BouncerError::Frozen)
            &&& set_merkle_config_next(frozen, signer, program_id, depth, root) == Err::<ListAccount, BouncerError>(BouncerError::Frozen)
        }),
{
    let flags = list.data.unwrap().flags;
    assert((flags | FLAG_FROZEN) & FLAG_FROZEN != 0) by (bit_vector);
}

/// Freezing changes no decision: every assertion gives the same result
/// before and after.
pub proof fn law_freeze_keeps_decisions(
    list: ListAccount,
    signer: Seq<u8>,
    program_id: Seq<u8>,
    subject: Seq<u8>,
    proof: Seq<u8>,
    entry: Option<AccountRecord>,
)
    requires
        freeze_list_next(list, signer, program_id) is Ok,
    ensures
        assert_outcome(freeze_list_next(list, signer, program_id).unwrap(), program_id, subject, proof, entry)
            == assert_outcome(list, program_id, subject, proof, entry),
{
}

/// A proof made of any siblings verifies against the root it leads to, for
/// either leaf value.
pub proof fn law_merkle_round_trip(key_hash: Seq<u8>, leaf_bit: u8, proof: Seq<u8>, depth: u8)
    requires
        0 < depth <= MERKLE_MAX_DEPTH,
        leaf_bit == 0 || leaf_bit == 1,
        proof.len() == depth as int * 32,
    ensures
        verify_outcome(proof_root(key_hash, leaf_bit, proof, depth), depth, key_hash, leaf_bit, proof)
            == Ok::<(), BouncerError>(()),
{
}

/// A proof of the wrong length fails with `InvalidProofLength`, whatever
/// the root, before any hash is compared.
pub proof fn law_merkle_wrong_length(root: Seq<u8>, key_hash: Seq<u8>, leaf_bit: u8, proof: Seq<u8>, depth: u8)
    requires
        0 < depth <= MERKLE_MAX_DEPTH,
        leaf_bit == 0 || leaf_bit == 1,
        proof.len() != depth as int * 32,
    ensures
        verify_outcome(root, depth, key_hash, leaf_bit, proof) == Err::<(), BouncerError>(BouncerError::InvalidProofLength),
{
}

/// An upsert keeps a list's entry count equal to the number of subjects
/// with an entry: where the count matched the live subjects before, it
/// matches them, with `subject` added, after.
pub proof fn law_upsert_counts_live(
    list: ListAccount,
    entry: EntryAccount,
    signer: Seq<u8>,
    program_id: Seq<u8>,
    subject: [u8; 32],
    status: u8,
    live: Set<Seq<u8>>,
)
    requires
        upsert_entry_next(list, entry, signer, program_id, subject, status) is Ok,
        live.finite(),
        live.len() < u32::MAX,
        list.data.unwrap().entry_count == live.len(),
        entry.data is Some <==> live.contains(subject@),
    ensures
        upsert_entry_next(list, entry, signer, program_id, subject, status).unwrap().0.data.unwrap().entry_count
            == live.insert(subject@).len(),
{
    if live.contains(subject@) {
        assert(live.insert(subject@) =~= live);
    }
}

/// A removal keeps a list's entry count equal to the number of subjects
/// with an entry, and the count never drops below zero.
pub proof fn law_remove_counts_live(
    list: ListAccount,
    entry: EntryAccount,
    signer: Seq<u8>,
    program_id: Seq<u8>,
    subject: [u8; 32],
    live: Set<Seq<u8>>,
)
    requires
        remove_entry_next(list, entry, signer, program_id, subject) is Ok,
    ensures
        ({
            let before = list.data.unwrap().entry_count;
            let after = remove_entry_next(list, entry, signer, program_id, subject).unwrap().0.data.unwrap().entry_count;
            &&& after == if before == 0 { 0 } else { before - 1 }
            &&& (live.finite() && before == live.len() && (entry.data is Some <==> live.contains(subject@)))
                ==> after == live.remove(subject@).len()
        }),
{
}

/// The subjects of the slots that hold an entry.
pub open spec fn live_subjects(slots: Map<Seq<u8>, EntryAccount>) -> Set<Seq<u8>> {
    slots.dom().filter(|s: Seq<u8>| slots[s].data is Some)
}

/// A list and its entry slots (keyed by subject) after a run of entry
/// operations by `signer`: `(true, subject, status)` upserts, `(false,
/// subject, _)` removes. A failed operation changes nothing, and one on a
/// subject without a slot is passed over.
pub open spec fn apply_entry_ops(
    list: ListAccount,
    slots: Map<Seq<u8>, EntryAccount>,
    signer: Seq<u8>,
    program_id: Seq<u8>,
    ops: Seq<(bool, [u8; 32], u8)>,
) -> (ListAccount, Map<Seq<u8>, EntryAccount>)
    decreases ops.len(),
{
    if ops.len() == 0 {
        (list, slots)
    } else {
        let before = apply_entry_ops(list, slots, signer, program_id, ops.drop_last());
        let op = ops.last();
        let key = op.1@;
        if !before.1.dom().contains(key) {
            before
        } else {
            let step = if op.0 {
                upsert_entry_next(before.0, before.1[key], signer, program_id, op.1, op.2)
            } else {
                remove_entry_next(before.0, before.1[key], signer, program_id, op.1)
            };
            match step {
                Ok(p) => (p.0, before.1.insert(key, p.1)),
                Err(_) => before,
            }
        }
    }
}

/// After any interleaving of upserts and removals, a list's entry count is
/// the number of subjects that hold an entry, where it was so at the start
/// and the count cannot reach its ceiling.
pub proof fn law_entry_count_is_live_count(
    list: ListAccount,
    slots: Map<Seq<u8>, EntryAccount>,
    signer: Seq<u8>,
    program_id: Seq<u8>,
    ops: Seq<(bool, [u8; 32], u8)>,
)
    requires
        list.data is Some,
        slots.dom().finite(),
        list.data.unwrap().entry_count == live_subjects(slots).len(),
        live_subjects(slots).len() + ops.len() < u32::MAX,
    ensures
        ({
            let after = apply_entry_ops(list, slots, signer, program_id, ops);
            &&& after.0.data is Some
            &&& after.1.dom().finite()
            &&& after.0.data.unwrap().entry_count == live_subjects(after.1).len()
            &&& live_subjects(after.1).len() <= live_subjects(slots).len() + ops.len()
        }),
    decreases ops.len(),
{
    slots.dom().lemma_len_filter(|s: Seq<u8>| slots[s].data is Some);
    if ops.len() > 0 {
        law_entry_count_is_live_count(list, slots, signer, program_id, ops.drop_last());
        let before = apply_entry_ops(list, slots, signer, program_id, ops.drop_last());
        let op = ops.last();
        let key = op.1@;
        let live = live_subjects(before.1);
        before.1.dom().lemma_len_filter(|s: Seq<u8>| before.1[s].data is Some);
        if before.1.dom().contains(key) {
            let step = if op.0 {
                upsert_entry_next(before.0, before.1[key], signer, program_id, op.1, op.2)
            } else {
                remove_entry_next(before.0, before.1[key], signer, program_id, op.1)
            };
            if let Ok(p) = step {
                let slots2 = before.1.insert(key, p.1);
                if op.0 {
                    assert(live_subjects(slots2) =~= live.insert(key));
                    if live.contains(key) {
                        assert(live.insert(key) =~= live);
                    }
                } else {
                    assert(live_subjects(slots2) =~= live.remove(key));
                    assert(live.contains(key));
                }
            }
        }
    }
}

} // verus!
