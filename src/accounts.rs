//! Records as they stand at their addresses, and the record sets that each
//! operation works on.
use vstd::prelude::*;

use crate::state::{Entry, List};

verus! {

/// The slot of a list record: its address and what it holds, if anything.
#[derive(Debug, Clone, Copy)]
pub struct ListAccount {
    pub key: [u8; 32],
    pub data: Option<List>,
}

/// The slot of an entry record: its address and what it holds, if anything.
#[derive(Debug, Clone, Copy)]
pub struct EntryAccount {
    pub key: [u8; 32],
    pub data: Option<Entry>,
}

/// A record supplied by a caller as raw bytes, with the program that owns it.
#[derive(Debug, Clone)]
pub struct AccountRecord {
    pub key: [u8; 32],
    pub owner: [u8; 32],
    pub data: Vec<u8>,
}

/// Records for `create_list`: the payer (whose key numbers the list), the
/// initial authority, and the slot at the list's derived address.
#[derive(Debug, Clone, Copy)]
pub struct CreateList {
    pub payer: [u8; 32],
    pub authority: [u8; 32],
    pub list: ListAccount,
}

/// Records for `set_authority`: the signing authority and the list.
#[derive(Debug, Clone, Copy)]
pub struct SetAuthority {
    pub authority: [u8; 32],
    pub list: ListAccount,
}

/// Records for `set_policy`: the signing authority and the list.
#[derive(Debug, Clone, Copy)]
pub struct SetPolicy {
    pub authority: [u8; 32],
    pub list: ListAccount,
}

/// Records for `freeze_list`: the signing authority and the list.
#[derive(Debug, Clone, Copy)]
pub struct FreezeList {
    pub authority: [u8; 32],
    pub list: ListAccount,
}

/// Records for `upsert_entry`: payer, signing authority, the list and the
/// slot at the entry's derived address.
#[derive(Debug, Clone, Copy)]
pub struct UpsertEntry {
    pub payer: [u8; 32],
    pub authority: [u8; 32],
    pub list: ListAccount,
    pub entry: EntryAccount,
}

/// Records for `remove_entry`: signing authority, the list, the entry and
/// where the entry's balance goes.
#[derive(Debug, Clone, Copy)]
pub struct RemoveEntry {
    pub authority: [u8; 32],
    pub list: ListAccount,
    pub entry: EntryAccount,
    pub refund_to: [u8; 32],
}

/// Records for `set_merkle_config`: the signing authority and the list.
#[derive(Debug, Clone, Copy)]
pub struct SetMerkleConfig {
    pub authority: [u8; 32],
    pub list: ListAccount,
}

/// Records for `assert_allowed`: the list.
#[derive(Debug, Clone, Copy)]
pub struct AssertAllowed {
    pub list: ListAccount,
}

} // verus!
