use bouncer::accounts::{
    AccountRecord, AssertAllowed, CreateList, EntryAccount, FreezeList, ListAccount, RemoveEntry,
    SetAuthority, SetMerkleConfig, SetPolicy, UpsertEntry,
};
use bouncer::address::{entry_address, list_address};
use bouncer::codec::{decode_entry, encode_entry};
use bouncer::error::BouncerError;
use bouncer::instructions::{
    assert_allowed, create_list, freeze_list, remove_entry, set_authority, set_merkle_config,
    set_policy, upsert_entry,
};
use bouncer::state::{
    Entry, EntryStatus, List, Policy, StorageKind, ENTRY_STATUS_ALLOW, ENTRY_STATUS_BLOCK,
    POLICY_ALLOWLIST, POLICY_BLOCKLIST, STORAGE_DIRECT_PDA, STORAGE_MERKLE_ROOT,
};

const PROGRAM: [u8; 32] = [9u8; 32];
const CREATOR: [u8; 32] = [1u8; 32];
const OTHER: [u8; 32] = [3u8; 32];

fn empty_slot(creator: [u8; 32], list_id: u64) -> ListAccount {
    let (key, _) = list_address(&creator, list_id, &PROGRAM).unwrap();
    ListAccount { key, data: None }
}

fn new_list(list_id: u64, policy: u8, storage_kind: u8) -> ListAccount {
    let mut ctx = CreateList { payer: CREATOR, authority: CREATOR, list: empty_slot(CREATOR, list_id) };
    create_list(&mut ctx, &PROGRAM, list_id, policy, storage_kind, 0).unwrap();
    ctx.list
}

fn entry_slot(list: &ListAccount, subject: [u8; 32]) -> EntryAccount {
    let (key, _) = entry_address(&list.key, &subject, &PROGRAM).unwrap();
    EntryAccount { key, data: None }
}

fn upsert(list: &mut ListAccount, entry: &mut EntryAccount, subject: [u8; 32], status: u8) -> Result<(), BouncerError> {
    let mut ctx = UpsertEntry { payer: CREATOR, authority: CREATOR, list: *list, entry: *entry };
    let r = upsert_entry(&mut ctx, &PROGRAM, subject, status).map(|_| ());
    *list = ctx.list;
    *entry = ctx.entry;
    r
}

fn remove(list: &mut ListAccount, entry: &mut EntryAccount, subject: [u8; 32]) -> Result<(), BouncerError> {
    let mut ctx = RemoveEntry { authority: CREATOR, list: *list, entry: *entry, refund_to: CREATOR };
    let r = remove_entry(&mut ctx, &PROGRAM, subject).map(|_| ());
    *list = ctx.list;
    *entry = ctx.entry;
    r
}

fn record_of(entry: &EntryAccount) -> AccountRecord {
    AccountRecord { key: entry.key, owner: PROGRAM, data: encode_entry(&entry.data.unwrap()) }
}

fn check(list: &ListAccount, subject: [u8; 32], entry: Option<&AccountRecord>) -> Result<(), BouncerError> {
    assert_allowed(&AssertAllowed { list: *list }, &PROGRAM, subject, &Vec::new(), entry)
}

#[test]
fn list_address_matches_program_derived_address() {
    let (key, bump) = list_address(&CREATOR, 7, &PROGRAM).unwrap();
    let (expected, expected_bump) = solana_pubkey::Pubkey::find_program_address(
        &[b"bouncer", &CREATOR, &7u64.to_le_bytes()],
        &solana_pubkey::Pubkey::new_from_array(PROGRAM),
    );
    assert_eq!(key, expected.to_bytes());
    assert_eq!(bump, expected_bump);
    assert_ne!(key, CREATOR);
    let (other, _) = list_address(&CREATOR, 8, &PROGRAM).unwrap();
    assert_ne!(key, other);
}

#[test]
fn entry_address_matches_program_derived_address() {
    let list = new_list(7, POLICY_ALLOWLIST, STORAGE_DIRECT_PDA);
    let (key, bump) = entry_address(&list.key, &OTHER, &PROGRAM).unwrap();
    let (expected, expected_bump) = solana_pubkey::Pubkey::find_program_address(
        &[b"entry", &list.key, &OTHER],
        &solana_pubkey::Pubkey::new_from_array(PROGRAM),
    );
    assert_eq!(key, expected.to_bytes());
    assert_eq!(bump, expected_bump);
}

#[test]
fn create_list_initialises_record() {
    let list = new_list(7, POLICY_BLOCKLIST, STORAGE_MERKLE_ROOT);
    let l = list.data.unwrap();
    let (_, bump) = list_address(&CREATOR, 7, &PROGRAM).unwrap();
    assert_eq!(l.version, 1);
    assert_eq!(l.bump, bump);
    assert_eq!(l.creator, CREATOR);
    assert_eq!(l.authority, CREATOR);
    assert_eq!(l.list_id, 7);
    assert_eq!(l.policy, POLICY_BLOCKLIST);
    assert_eq!(l.storage_kind, STORAGE_MERKLE_ROOT);
    assert_eq!(l.entry_count, 0);
    assert_eq!(l.storage_config, [0u8; 96]);
    assert!(!l.is_frozen());
}

#[test]
fn create_list_twice_fails() {
    let mut ctx = CreateList { payer: CREATOR, authority: CREATOR, list: empty_slot(CREATOR, 11) };
    let event = create_list(&mut ctx, &PROGRAM, 11, POLICY_ALLOWLIST, STORAGE_DIRECT_PDA, 0).unwrap();
    assert_eq!(event.list, ctx.list.key);
    assert_eq!(event.list_id, 11);
    let before = ctx.list.data.unwrap().bump;
    assert_eq!(
        create_list(&mut ctx, &PROGRAM, 11, POLICY_ALLOWLIST, STORAGE_DIRECT_PDA, 0).unwrap_err(),
        BouncerError::AccountInUse
    );
    assert_eq!(ctx.list.data.unwrap().bump, before);
}

#[test]
fn create_list_rejects_bad_inputs() {
    let mut ctx = CreateList { payer: CREATOR, authority: CREATOR, list: empty_slot(CREATOR, 1) };
    assert_eq!(create_list(&mut ctx, &PROGRAM, 1, 2, STORAGE_DIRECT_PDA, 0).unwrap_err(), BouncerError::InvalidPolicy);
    assert_eq!(create_list(&mut ctx, &PROGRAM, 1, POLICY_ALLOWLIST, 2, 0).unwrap_err(), BouncerError::InvalidStorageKind);
    assert!(ctx.list.data.is_none());
    let mut wrong = CreateList { payer: CREATOR, authority: CREATOR, list: empty_slot(CREATOR, 2) };
    assert_eq!(
        create_list(&mut wrong, &PROGRAM, 1, POLICY_ALLOWLIST, STORAGE_DIRECT_PDA, 0).unwrap_err(),
        BouncerError::SeedsMismatch
    );
}

#[test]
fn allowlist_direct_scenario() {
    let s1 = [5u8; 32];
    let mut list = new_list(7, POLICY_ALLOWLIST, STORAGE_DIRECT_PDA);
    let mut entry = entry_slot(&list, s1);
    upsert(&mut list, &mut entry, s1, ENTRY_STATUS_ALLOW).unwrap();
    assert_eq!(check(&list, s1, Some(&record_of(&entry))), Ok(()));
    remove(&mut list, &mut entry, s1).unwrap();
    assert!(entry.data.is_none());
    assert_eq!(check(&list, s1, None), Err(BouncerError::NotAllowed));
}

#[test]
fn allowlist_follows_entry_status() {
    let s = [6u8; 32];
    let mut list = new_list(20, POLICY_ALLOWLIST, STORAGE_DIRECT_PDA);
    assert_eq!(check(&list, s, None), Err(BouncerError::NotAllowed));
    let mut entry = entry_slot(&list, s);
    upsert(&mut list, &mut entry, s, ENTRY_STATUS_ALLOW).unwrap();
    assert_eq!(check(&list, s, Some(&record_of(&entry))), Ok(()));
    upsert(&mut list, &mut entry, s, ENTRY_STATUS_BLOCK).unwrap();
    assert_eq!(check(&list, s, Some(&record_of(&entry))), Err(BouncerError::NotAllowed));
}

#[test]
fn blocklist_follows_entry_status() {
    let s = [6u8; 32];
    let mut list = new_list(21, POLICY_BLOCKLIST, STORAGE_DIRECT_PDA);
    assert_eq!(check(&list, s, None), Ok(()));
    let mut entry = entry_slot(&list, s);
    upsert(&mut list, &mut entry, s, ENTRY_STATUS_BLOCK).unwrap();
    assert_eq!(check(&list, s, Some(&record_of(&entry))), Err(BouncerError::NotAllowed));
    upsert(&mut list, &mut entry, s, ENTRY_STATUS_ALLOW).unwrap();
    assert_eq!(check(&list, s, Some(&record_of(&entry))), Ok(()));
}

#[test]
fn frozen_list_refuses_changes_but_still_decides() {
    let s = [6u8; 32];
    let mut list = new_list(30, POLICY_ALLOWLIST, STORAGE_DIRECT_PDA);
    let mut entry = entry_slot(&list, s);
    upsert(&mut list, &mut entry, s, ENTRY_STATUS_ALLOW).unwrap();
    let mut f = FreezeList { authority: CREATOR, list };
    freeze_list(&mut f, &PROGRAM).unwrap();
    let mut list = f.list;
    assert!(list.data.unwrap().is_frozen());
    let mut a = SetAuthority { authority: CREATOR, list };
    assert_eq!(set_authority(&mut a, &PROGRAM, OTHER).unwrap_err(), BouncerError::Frozen);
    let mut p = SetPolicy { authority: CREATOR, list };
    assert_eq!(set_policy(&mut p, &PROGRAM, POLICY_BLOCKLIST).unwrap_err(), BouncerError::Frozen);
    let mut f2 = FreezeList { authority: CREATOR, list };
    assert_eq!(freeze_list(&mut f2, &PROGRAM).unwrap_err(), BouncerError::Frozen);
    assert_eq!(upsert(&mut list, &mut entry, s, ENTRY_STATUS_BLOCK), Err(BouncerError::Frozen));
    assert_eq!(remove(&mut list, &mut entry, s), Err(BouncerError::Frozen));
    let mut m = SetMerkleConfig { authority: CREATOR, list };
    assert_eq!(set_merkle_config(&mut m, &PROGRAM, 4, [0u8; 32]).unwrap_err(), BouncerError::Frozen);
    assert_eq!(check(&list, s, Some(&record_of(&entry))), Ok(()));
    assert_eq!(check(&list, [8u8; 32], None), Err(BouncerError::NotAllowed));
}

#[test]
fn entry_count_tracks_live_entries() {
    let a = [10u8; 32];
    let b = [11u8; 32];
    let mut list = new_list(40, POLICY_BLOCKLIST, STORAGE_DIRECT_PDA);
    let mut ea = entry_slot(&list, a);
    let mut eb = entry_slot(&list, b);
    upsert(&mut list, &mut ea, a, ENTRY_STATUS_BLOCK).unwrap();
    assert_eq!(list.data.unwrap().entry_count, 1);
    upsert(&mut list, &mut eb, b, ENTRY_STATUS_ALLOW).unwrap();
    assert_eq!(list.data.unwrap().entry_count, 2);
    upsert(&mut list, &mut ea, a, ENTRY_STATUS_ALLOW).unwrap();
    assert_eq!(list.data.unwrap().entry_count, 2);
    remove(&mut list, &mut ea, a).unwrap();
    assert_eq!(list.data.unwrap().entry_count, 1);
    remove(&mut list, &mut eb, b).unwrap();
    assert_eq!(list.data.unwrap().entry_count, 0);
    assert_eq!(remove(&mut list, &mut eb, b), Err(BouncerError::AccountNotInitialized));
    assert_eq!(list.data.unwrap().entry_count, 0);
}

#[test]
fn entry_count_saturates_at_zero() {
    let a = [10u8; 32];
    let mut list = new_list(41, POLICY_BLOCKLIST, STORAGE_DIRECT_PDA);
    let mut ea = entry_slot(&list, a);
    upsert(&mut list, &mut ea, a, ENTRY_STATUS_BLOCK).unwrap();
    let mut l = list.data.unwrap();
    l.entry_count = 0;
    list.data = Some(l);
    remove(&mut list, &mut ea, a).unwrap();
    assert_eq!(list.data.unwrap().entry_count, 0);
}

#[test]
fn admin_operations_change_fields() {
    let list = new_list(50, POLICY_ALLOWLIST, STORAGE_DIRECT_PDA);
    let mut p = SetPolicy { authority: CREATOR, list };
    let ev = set_policy(&mut p, &PROGRAM, POLICY_BLOCKLIST).unwrap();
    assert_eq!((ev.old_policy, ev.new_policy), (POLICY_ALLOWLIST, POLICY_BLOCKLIST));
    assert_eq!(p.list.data.unwrap().policy, POLICY_BLOCKLIST);
    assert_eq!(set_policy(&mut p, &PROGRAM, 7).unwrap_err(), BouncerError::InvalidPolicy);
    let mut a = SetAuthority { authority: CREATOR, list: p.list };
    let ev = set_authority(&mut a, &PROGRAM, OTHER).unwrap();
    assert_eq!((ev.old_authority, ev.new_authority), (CREATOR, OTHER));
    assert_eq!(a.list.data.unwrap().authority, OTHER);
    let mut again = SetAuthority { authority: CREATOR, list: a.list };
    assert_eq!(set_authority(&mut again, &PROGRAM, CREATOR).unwrap_err(), BouncerError::Unauthorized);
    let mut f = FreezeList { authority: OTHER, list: a.list };
    freeze_list(&mut f, &PROGRAM).unwrap();
    assert_eq!(f.list.data.unwrap().creator, CREATOR);
}

#[test]
fn operations_on_missing_or_misplaced_lists_fail() {
    let mut a = SetAuthority { authority: CREATOR, list: empty_slot(CREATOR, 60) };
    assert_eq!(set_authority(&mut a, &PROGRAM, OTHER).unwrap_err(), BouncerError::AccountNotInitialized);
    let mut list = new_list(61, POLICY_ALLOWLIST, STORAGE_DIRECT_PDA);
    list.key = [0u8; 32];
    let mut p = SetPolicy { authority: CREATOR, list };
    assert_eq!(set_policy(&mut p, &PROGRAM, POLICY_BLOCKLIST).unwrap_err(), BouncerError::SeedsMismatch);
    assert_eq!(check(&list, OTHER, None), Err(BouncerError::SeedsMismatch));
}

#[test]
fn upsert_entry_rejects_bad_inputs() {
    let s = [12u8; 32];
    let mut list = new_list(70, POLICY_ALLOWLIST, STORAGE_DIRECT_PDA);
    let mut entry = entry_slot(&list, s);
    assert_eq!(upsert(&mut list, &mut entry, s, 0), Err(BouncerError::InvalidStatus));
    assert_eq!(upsert(&mut list, &mut entry, s, 3), Err(BouncerError::InvalidStatus));
    let mut misplaced = EntryAccount { key: [0u8; 32], data: None };
    assert_eq!(upsert(&mut list, &mut misplaced, s, ENTRY_STATUS_ALLOW), Err(BouncerError::SeedsMismatch));
    let mut ctx = UpsertEntry { payer: OTHER, authority: OTHER, list, entry };
    assert_eq!(upsert_entry(&mut ctx, &PROGRAM, s, ENTRY_STATUS_ALLOW).unwrap_err(), BouncerError::Unauthorized);
    let mut merkle = new_list(71, POLICY_ALLOWLIST, STORAGE_MERKLE_ROOT);
    let mut me = entry_slot(&merkle, s);
    assert_eq!(upsert(&mut merkle, &mut me, s, ENTRY_STATUS_ALLOW), Err(BouncerError::InvalidStorageKind));
    upsert(&mut list, &mut entry, s, ENTRY_STATUS_ALLOW).unwrap();
    let mut e = entry.data.unwrap();
    e.subject = OTHER;
    entry.data = Some(e);
    assert_eq!(upsert(&mut list, &mut entry, s, ENTRY_STATUS_BLOCK), Err(BouncerError::EntryDataMismatch));
    assert_eq!(remove(&mut list, &mut entry, s), Err(BouncerError::EntryDataMismatch));
    assert_eq!(list.data.unwrap().entry_count, 1);
}

#[test]
fn upsert_entry_sets_record_fields() {
    let s = [13u8; 32];
    let mut list = new_list(72, POLICY_ALLOWLIST, STORAGE_DIRECT_PDA);
    let mut entry = entry_slot(&list, s);
    upsert(&mut list, &mut entry, s, ENTRY_STATUS_BLOCK).unwrap();
    let e = entry.data.unwrap();
    let (_, bump) = entry_address(&list.key, &s, &PROGRAM).unwrap();
    assert_eq!((e.version, e.bump, e.status, e.reserved), (1, bump, ENTRY_STATUS_BLOCK, 0));
    assert_eq!(e.list, list.key);
    assert_eq!(e.subject, s);
}

#[test]
fn assert_allowed_checks_supplied_entry() {
    let s = [14u8; 32];
    let mut list = new_list(80, POLICY_ALLOWLIST, STORAGE_DIRECT_PDA);
    let mut entry = entry_slot(&list, s);
    upsert(&mut list, &mut entry, s, ENTRY_STATUS_ALLOW).unwrap();
    let good = record_of(&entry);
    let mut wrong_key = good.clone();
    wrong_key.key = [0u8; 32];
    assert_eq!(check(&list, s, Some(&wrong_key)), Err(BouncerError::EntryPdaMismatch));
    let mut wrong_owner = good.clone();
    wrong_owner.owner = OTHER;
    assert_eq!(check(&list, s, Some(&wrong_owner)), Err(BouncerError::EntryAccountInvalidOwner));
    let mut bad_tag = good.clone();
    bad_tag.data[0] ^= 1;
    assert_eq!(check(&list, s, Some(&bad_tag)), Err(BouncerError::EntryDataMismatch));
    let mut short = good.clone();
    short.data.truncate(40);
    assert_eq!(check(&list, s, Some(&short)), Err(BouncerError::EntryDataMismatch));
    let mut other_subject = good.clone();
    other_subject.data[44] ^= 1;
    assert_eq!(check(&list, s, Some(&other_subject)), Err(BouncerError::EntryDataMismatch));
    let proof = vec![0u8; 32];
    assert_eq!(
        assert_allowed(&AssertAllowed { list }, &PROGRAM, s, &proof, Some(&good)),
        Err(BouncerError::ProofNotSupported)
    );
}

#[test]
fn assert_allowed_rejects_bad_list_fields() {
    let mut list = new_list(81, POLICY_ALLOWLIST, STORAGE_DIRECT_PDA);
    let mut l = list.data.unwrap();
    l.policy = 9;
    list.data = Some(l);
    assert_eq!(check(&list, OTHER, None), Err(BouncerError::InvalidPolicy));
    l.policy = POLICY_ALLOWLIST;
    l.storage_kind = 2;
    list.data = Some(l);
    assert_eq!(check(&list, OTHER, None), Err(BouncerError::InvalidStorageKind));
}

#[test]
fn entry_record_round_trip() {
    let e = Entry { version: 1, bump: 254, status: 2, reserved: 0, list: [4u8; 32], subject: [5u8; 32] };
    let bytes = encode_entry(&e);
    assert_eq!(bytes.len(), Entry::LEN);
    let digest = solana_sha256_hasher::hash(b"account:Entry").to_bytes();
    assert_eq!(&bytes[..8], &digest[..8]);
    let d = decode_entry(&bytes).unwrap();
    assert_eq!((d.version, d.bump, d.status, d.reserved), (1, 254, 2, 0));
    assert_eq!(d.list, [4u8; 32]);
    assert_eq!(d.subject, [5u8; 32]);
    assert!(decode_entry(&bytes[..75]).is_none());
}

#[test]
fn byte_enums_decode_and_encode() {
    assert_eq!(Policy::from_u8(0), Ok(Policy::Allowlist));
    assert_eq!(Policy::from_u8(1), Ok(Policy::Blocklist));
    assert_eq!(Policy::from_u8(2), Err(BouncerError::InvalidPolicy));
    assert_eq!(Policy::Blocklist.to_u8(), 1);
    assert_eq!(StorageKind::from_u8(2), Ok(StorageKind::Reserved));
    assert_eq!(StorageKind::from_u8(3), Err(BouncerError::InvalidStorageKind));
    assert_eq!(StorageKind::MerkleRoot.to_u8(), 1);
    assert_eq!(EntryStatus::from_u8(0), Ok(EntryStatus::Unset));
    assert_eq!(EntryStatus::from_u8(4), Err(BouncerError::InvalidStatus));
    assert_eq!(EntryStatus::Block.to_u8(), 2);
    assert_eq!(List::LEN, 256);
}
