//! The list and entry records, their byte-valued enums and the events that
//! mutations report.
use vstd::prelude::*;

use crate::error::BouncerError;

verus! {

pub const LIST_VERSION: u8 = 1;
pub const ENTRY_VERSION: u8 = 1;

pub const POLICY_ALLOWLIST: u8 = 0;
pub const POLICY_BLOCKLIST: u8 = 1;

pub const STORAGE_DIRECT_PDA: u8 = 0;
pub const STORAGE_MERKLE_ROOT: u8 = 1;

pub const ENTRY_STATUS_UNSET: u8 = 0;
pub const ENTRY_STATUS_ALLOW: u8 = 1;
pub const ENTRY_STATUS_BLOCK: u8 = 2;

pub const FLAG_FROZEN: u16 = 1;

/// Whether a list of this policy expects a subject to be explicitly allowed,
/// or only not explicitly blocked.
#[derive(Debug, Clone, Copy, PartialEq, Eq, Structural)]
pub enum Policy {
    Allowlist,
    Blocklist,
}

/// How a list keeps its subjects.
#[derive(Debug, Clone, Copy, PartialEq, Eq, Structural)]
pub enum StorageKind {
    DirectRecords,
    MerkleRoot,
    Reserved,
}

/// The status stored in an entry record.
#[derive(Debug, Clone, Copy, PartialEq, Eq, Structural)]
pub enum EntryStatus {
    Unset,
    Allow,
    Block,
}

pub open spec fn policy_of(b: u8) -> Option<Policy> {
    if b == POLICY_ALLOWLIST {
        Some(Policy::Allowlist)
    } else if b == POLICY_BLOCKLIST {
        Some(Policy::Blocklist)
    } else {
        None
    }
}

pub open spec fn storage_kind_of(b: u8) -> Option<StorageKind> {
    if b == STORAGE_DIRECT_PDA {
        Some(StorageKind::DirectRecords)
    } else if b == STORAGE_MERKLE_ROOT {
        Some(StorageKind::MerkleRoot)
    } else if b == 2 {
        Some(StorageKind::Reserved)
    } else {
        None
    }
}

pub open spec fn status_of(b: u8) -> Option<EntryStatus> {
    if b == ENTRY_STATUS_UNSET {
        Some(EntryStatus::Unset)
    } else if b == ENTRY_STATUS_ALLOW {
        Some(EntryStatus::Allow)
    } else if b == ENTRY_STATUS_BLOCK {
        Some(EntryStatus::Block)
    } else {
        None
    }
}

impl Policy {
    /// Decodes a stored policy byte, rejecting values out of the domain.
    pub fn from_u8(b: u8) -> (r: Result<Policy, BouncerError>)
        ensures
            r == (match policy_of(b) {
                Some(p) => Ok(p),
                None => Err(BouncerError::InvalidPolicy),
            }),
    {
        if b == POLICY_ALLOWLIST {
            Ok(Policy::Allowlist)
        } else if b == POLICY_BLOCKLIST {
            Ok(Policy::Blocklist)
        } else {
            Err(BouncerError::InvalidPolicy)
        }
    }

    pub fn to_u8(self) -> (r: u8)
        ensures
            policy_of(r) == Some(self),
    {
        match self {
            Policy::Allowlist => POLICY_ALLOWLIST,
            Policy::Blocklist => POLICY_BLOCKLIST,
        }
    }
}

impl StorageKind {
    /// Decodes a stored storage-kind byte, rejecting values out of the domain.
    pub fn from_u8(b: u8) -> (r: Result<StorageKind, BouncerError>)
        ensures
            r == (match storage_kind_of(b) {
                Some(k) => Ok(k),
                None => Err(BouncerError::InvalidStorageKind),
            }),
    {
        if b == STORAGE_DIRECT_PDA {
            Ok(StorageKind::DirectRecords)
        } else if b == STORAGE_MERKLE_ROOT {
            Ok(StorageKind::MerkleRoot)
        } else if b == 2 {
            Ok(StorageKind::Reserved)
        } else {
            Err(BouncerError::InvalidStorageKind)
        }
    }

    pub fn to_u8(self) -> (r: u8)
        ensures
            storage_kind_of(r) == Some(self),
    {
        match self {
            StorageKind::DirectRecords => STORAGE_DIRECT_PDA,
            StorageKind::MerkleRoot => STORAGE_MERKLE_ROOT,
            StorageKind::Reserved => 2,
        }
    }
}

impl EntryStatus {
    /// Decodes a stored status byte, rejecting values out of the domain.
    pub fn from_u8(b: u8) -> (r: Result<EntryStatus, BouncerError>)
        ensures
            r == (match status_of(b) {
                Some(s) => Ok(s),
                None => Err(BouncerError::InvalidStatus),
            }),
    {
        if b == ENTRY_STATUS_UNSET {
            Ok(EntryStatus::Unset)
        } else if b == ENTRY_STATUS_ALLOW {
            Ok(EntryStatus::Allow)
        } else if b == ENTRY_STATUS_BLOCK {
            Ok(EntryStatus::Block)
        } else {
            Err(BouncerError::InvalidStatus)
        }
    }

    pub fn to_u8(self) -> (r: u8)
        ensures
            status_of(r) == Some(self),
    {
        match self {
            EntryStatus::Unset => ENTRY_STATUS_UNSET,
            EntryStatus::Allow => ENTRY_STATUS_ALLOW,
            EntryStatus::Block => ENTRY_STATUS_BLOCK,
        }
    }
}

/// The root policy record of one list.
#[derive(Debug, Clone, Copy)]
pub struct List {
    pub version: u8,
    pub bump: u8,
    pub authority: [u8; 32],
    pub creator: [u8; 32],
    pub list_id: u64,
    /// 0 = allow-list, 1 = block-list.
    pub policy: u8,
    /// 0 = direct records, 1 = Merkle root, 2 = reserved.
    pub storage_kind: u8,
    pub flags: u16,
    pub entry_count: u32,
    pub reserved0: u32,
    /// Under Merkle storage: byte 0 is the depth, bytes 1..33 the root.
    pub storage_config: [u8; 96],
}

/// Whether a flag word holds the frozen bit.
pub open spec fn flags_frozen(flags: u16) -> bool {
    flags & FLAG_FROZEN != 0
}

impl List {
    pub const LEN: usize = 256;

    pub open spec fn frozen(&self) -> bool {
        flags_frozen(self.flags)
    }

    pub open spec fn depth(&self) -> u8 {
        self.storage_config@[0]
    }

    pub open spec fn root(&self) -> Seq<u8> {
        self.storage_config@.subrange(1, 33)
    }

    pub fn is_frozen(&self) -> (r: bool)
        ensures
            r == self.frozen(),
    {
        (self.flags & FLAG_FROZEN) != 0
    }

    pub fn merkle_depth(&self) -> (r: u8)
        ensures
            r == self.depth(),
    {
        self.storage_config[0]
    }

    pub fn merkle_root(&self) -> (r: [u8; 32])
        ensures
            r@ == self.root(),
    {
        let mut out: [u8; 32] = [0u8; 32];
        let mut i: usize = 0;
        while i < 32
            invariant
                i <= 32,
                out@.len() == 32,
                self.storage_config@.len() == 96,
                forall|k: int| 0 <= k < i ==> out@[k] == self.storage_config@[k + 1],
            decreases 32 - i,
        {
            out[i] = self.storage_config[i + 1];
            i = i + 1;
        }
        assert(out@ =~= self.root());
        out
    }

    /// Stores the Merkle depth in byte 0 and the root in bytes 1..33 of the
    /// storage configuration; nothing else changes.
    pub fn set_merkle_config(&mut self, depth: u8, root: [u8; 32])
        ensures
            final(self).storage_config@ == seq![depth] + root@ + old(self).storage_config@.subrange(33, 96),
            final(self).depth() == depth,
            final(self).root() == root@,
            *final(self) == (List { storage_config: final(self).storage_config, ..*old(self) }),
    {
        self.storage_config[0] = depth;
        let mut i: usize = 0;
        while i < 32
            invariant
                i <= 32,
                self.storage_config@.len() == 96,
                self.storage_config@[0] == depth,
                forall|k: int| 0 <= k < i ==> self.storage_config@[k + 1] == root@[k],
                forall|k: int| 33 <= k < 96 ==> self.storage_config@[k] == old(self).storage_config@[k],
                *self == (List { storage_config: self.storage_config, ..*old(self) }),
            decreases 32 - i,
        {
            self.storage_config[i + 1] = root[i];
            i = i + 1;
        }
        assert(self.storage_config@ =~= seq![depth] + root@ + old(self).storage_config@.subrange(33, 96));
        assert(self.root() =~= root@);
    }
}

/// The status record of one subject on a list kept as direct records.
#[derive(Debug, Clone, Copy)]
pub struct Entry {
    pub version: u8,
    pub bump: u8,
    /// 0 = unset, 1 = allow, 2 = block.
    pub status: u8,
    pub reserved: u8,
    pub list: [u8; 32],
    pub subject: [u8; 32],
}

impl Entry {
    pub const LEN: usize = 96;
}

/// Reported when a list is created.
#[derive(Debug, Clone, Copy)]
pub struct ListCreated {
    pub list: [u8; 32],
    pub creator: [u8; 32],
    pub authority: [u8; 32],
    pub list_id: u64,
    pub policy: u8,
    pub storage_kind: u8,
}

/// Reported when a list's authority changes.
#[derive(Debug, Clone, Copy)]
pub struct AuthorityChanged {
    pub list: [u8; 32],
    pub old_authority: [u8; 32],
    pub new_authority: [u8; 32],
}

/// Reported when a list's policy changes.
#[derive(Debug, Clone, Copy)]
pub struct PolicyChanged {
    pub list: [u8; 32],
    pub old_policy: u8,
    pub new_policy: u8,
}

/// Reported when a list is frozen.
#[derive(Debug, Clone, Copy)]
pub struct ListFrozen {
    pub list: [u8; 32],
}

/// Reported when an entry is created or updated.
#[derive(Debug, Clone, Copy)]
pub struct EntryUpserted {
    pub list: [u8; 32],
    pub subject: [u8; 32],
    pub status: u8,
}

/// Reported when an entry is removed.
#[derive(Debug, Clone, Copy)]
pub struct EntryRemoved {
    pub list: [u8; 32],
    pub subject: [u8; 32],
}

/// Reported when a list's Merkle depth and root are set.
#[derive(Debug, Clone, Copy)]
pub struct MerkleConfigSet {
    pub list: [u8; 32],
    pub authority: [u8; 32],
    pub depth: u8,
    pub root: [u8; 32],
}

} // verus!
