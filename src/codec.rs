//! The byte layout of an entry record: an eight-byte type tag, the four
//! one-byte fields, the list address and the subject, then zero padding up
//! to the record's size.
use vstd::prelude::*;

use crate::digest::{sha256, sha256_of};
use crate::merkle::push_all;
use crate::state::Entry;

verus! {

/// "account:Entry", whose digest starts every entry record.
pub open spec fn entry_type_name() -> Seq<u8> {
    seq![97u8, 99, 99, 111, 117, 110, 116, 58, 69, 110, 116, 114, 121]
}

/// The eight-byte tag at the start of an entry record.
pub open spec fn entry_discriminator() -> Seq<u8> {
    Seq::new(8, |i: int| sha256_of(entry_type_name())[i])
}

/// Bytes an entry record must hold to be read.
pub const ENTRY_ENCODED_LEN: usize = 76;

/// Whether `data` reads as an entry record.
pub open spec fn entry_decodable(data: Seq<u8>) -> bool {
    data.len() >= 76 && data.subrange(0, 8) == entry_discriminator()
}

/// What the fields of a readable entry record hold.
pub open spec fn entry_fields_of(data: Seq<u8>, e: Entry) -> bool {
    &&& e.version == data[8]
    &&& e.bump == data[9]
    &&& e.status == data[10]
    &&& e.reserved == data[11]
    &&& e.list@ == data.subrange(12, 44)
    &&& e.subject@ == data.subrange(44, 76)
}

/// The bytes of an entry record of `Entry::LEN` bytes.
pub open spec fn entry_bytes(e: Entry) -> Seq<u8> {
    entry_discriminator() + seq![e.version, e.bump, e.status, e.reserved] + e.list@ + e.subject@
        + Seq::new(20, |_i: int| 0u8)
}

fn discriminator() -> (r: [u8; 32])
    ensures
        r@ == sha256_of(entry_type_name()),
        r@.subrange(0, 8) == entry_discriminator(),
{
    let name: [u8; 13] = [97u8, 99, 99, 111, 117, 110, 116, 58, 69, 110, 116, 114, 121];
    assert(name@ =~= entry_type_name());
    let r = sha256(&name);
    assert(r@.subrange(0, 8) =~= entry_discriminator());
    r
}

fn read_key(data: &[u8], start: usize) -> (r: [u8; 32])
    requires
        start <= 44,
        start + 32 <= data@.len(),
    ensures
        r@ == data@.subrange(start as int, start + 32),
{
    let mut out: [u8; 32] = [0u8; 32];
    let mut i: usize = 0;
    while i < 32
        invariant
            i <= 32,
            start <= 44,
            start + 32 <= data@.len(),
            out@.len() == 32,
            forall|k: int| 0 <= k < i ==> out@[k] == data@[start + k],
        decreases 32 - i,
    {
        out[i] = data[start + i];
        i = i + 1;
    }
    assert(out@ =~= data@.subrange(start as int, start + 32));
    out
}

/// Reads an entry record; `None` where the data is too short or does not
/// start with the entry tag. Bytes after the fields are ignored.
pub fn decode_entry(data: &[u8]) -> (r: Option<Entry>)
    ensures
        r is Some <==> entry_decodable(data@),
        r matches Some(e) ==> entry_fields_of(data@, e),
{
    if data.len() < ENTRY_ENCODED_LEN {
        return None;
    }
    let tag = discriminator();
    let mut i: usize = 0;
    while i < 8
        invariant
            i <= 8,
            data@.len() >= 76,
            tag@.len() == 32,
            tag@.subrange(0, 8) == entry_discriminator(),
            forall|k: int| 0 <= k < i ==> data@[k] == tag@[k],
        decreases 8 - i,
    {
        if data[i] != tag[i] {
            assert(data@.subrange(0, 8)[i as int] != entry_discriminator()[i as int]);
            return None;
        }
        i = i + 1;
    }
    assert(data@.subrange(0, 8) =~= entry_discriminator());
    Some(
        Entry {
            version: data[8],
            bump: data[9],
            status: data[10],
            reserved: data[11],
            list: read_key(data, 12),
            subject: read_key(data, 44),
        },
    )
}

/// Writes an entry record of `Entry::LEN` bytes.
pub fn encode_entry(e: &Entry) -> (r: Vec<u8>)
    ensures
        r@ == entry_bytes(*e),
        r@.len() == Entry::LEN,
{
    let tag = discriminator();
    let mut out: Vec<u8> = Vec::new();
    let mut i: usize = 0;
    while i < 8
        invariant
            i <= 8,
            tag@.len() == 32,
            out@ == tag@.subrange(0, i as int),
        decreases 8 - i,
    {
        out.push(tag[i]);
        i = i + 1;
        assert(out@ =~= tag@.subrange(0, i as int));
    }
    out.push(e.version);
    out.push(e.bump);
    out.push(e.status);
    out.push(e.reserved);
    push_all(&mut out, &e.list);
    push_all(&mut out, &e.subject);
    let mut j: usize = 0;
    while j < 20
        invariant
            j <= 20,
            out@ == entry_discriminator() + seq![e.version, e.bump, e.status, e.reserved] + e.list@
                + e.subject@ + Seq::new(j as nat, |_i: int| 0u8),
        decreases 20 - j,
    {
        out.push(0u8);
        j = j + 1;
        assert(out@ =~= entry_discriminator() + seq![e.version, e.bump, e.status, e.reserved]
            + e.list@ + e.subject@ + Seq::new(j as nat, |_i: int| 0u8));
    }
    out
}

/// Reading back a written entry record gives the same entry.
pub proof fn lemma_entry_round_trip(e: Entry)
    ensures
        entry_decodable(entry_bytes(e)),
        entry_fields_of(entry_bytes(e), e),
{
    let b = entry_bytes(e);
    assert(b.subrange(0, 8) =~= entry_discriminator());
    assert(b.subrange(12, 44) =~= e.list@);
    assert(b.subrange(44, 76) =~= e.subject@);
}

} // verus!
