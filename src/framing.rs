//! Byte layout of block headers and record metadata.
use byteorder::{BigEndian, ByteOrder};
use vstd::prelude::*;

verus! {

/// Length of the block header: the tag followed by the block index.
pub const HEADER_LEN: u64 = 16;

/// Length of the two length fields that open every record.
pub const RECORD_FIELDS_LEN: u64 = 16;

/// Records start on multiples of this.
pub const RECORD_ALIGN: u64 = 16;

/// The eight bytes of `n`, most significant first.
pub open spec fn be_u64(n: u64) -> Seq<u8> {
    seq![
        ((n as int / 0x100000000000000) % 256) as u8,
        ((n as int / 0x1000000000000) % 256) as u8,
        ((n as int / 0x10000000000) % 256) as u8,
        ((n as int / 0x100000000) % 256) as u8,
        ((n as int / 0x1000000) % 256) as u8,
        ((n as int / 0x10000) % 256) as u8,
        ((n as int / 0x100) % 256) as u8,
        (n as int % 256) as u8,
    ]
}

/// The tag that opens every block: three identifying bytes and five of padding.
pub open spec fn tag_spec() -> Seq<u8> {
    seq![0x63u8, 0x66u8, 0x31u8, 0u8, 0u8, 0u8, 0u8, 0u8]
}

/// The header of the block with the given index.
pub open spec fn header_spec(index: u64) -> Seq<u8> {
    tag_spec() + be_u64(index)
}

/// Total length of a record: the two length fields, the extra metadata and the payload.
pub open spec fn record_total_spec(payload_len: int, extra_len: int) -> int {
    RECORD_FIELDS_LEN + extra_len + payload_len
}

/// The metadata that precedes a record's payload.
pub open spec fn metadata_spec(payload_len: u64, extra: Seq<u8>) -> Seq<u8> {
    be_u64(record_total_spec(payload_len as int, extra.len() as int) as u64) + be_u64(
        extra.len() as u64,
    ) + extra
}

/// The smallest multiple of the record alignment that is at least `offset`.
pub open spec fn align_up_spec(offset: int) -> int {
    if offset % 16 == 0 {
        offset
    } else {
        offset + (16 - offset % 16)
    }
}

/// Relies on byteorder's `BigEndian::write_u64`: it stores the eight bytes of
/// `n` into the buffer, most significant first.
#[verifier::external_body]
fn push_u64_be(out: &mut Vec<u8>, n: u64)
    ensures
        final(out)@ == old(out)@ + be_u64(n),
{
    let mut buf = [0u8; 8];
    BigEndian::write_u64(&mut buf, n);
    out.extend_from_slice(&buf);
}

/// The header written once at offset 0 of block `index`.
pub fn block_header(index: u64) -> (r: Vec<u8>)
    ensures
        r@ == header_spec(index),
        r@.len() == HEADER_LEN,
{
    let mut r: Vec<u8> = vec![0x63u8, 0x66u8, 0x31u8, 0u8, 0u8, 0u8, 0u8, 0u8];
    assert(r@ == tag_spec());
    push_u64_be(&mut r, index);
    r
}

/// Total length of a record with the given payload and extra metadata
/// lengths, or `None` where it does not fit in a `u64`.
pub fn record_total(payload_len: u64, extra_len: u64) -> (r: Option<u64>)
    ensures
        r is Some <==> record_total_spec(payload_len as int, extra_len as int) <= u64::MAX,
        r is Some ==> r->0 == record_total_spec(payload_len as int, extra_len as int),
{
    if extra_len > u64::MAX - RECORD_FIELDS_LEN {
        return None;
    }
    let fixed = RECORD_FIELDS_LEN + extra_len;
    if payload_len > u64::MAX - fixed {
        return None;
    }
    Some(fixed + payload_len)
}

/// The metadata of a record: its total length, the length of the extra
/// metadata, then the extra metadata itself.
pub fn record_metadata(payload_len: u64, extra: &Vec<u8>) -> (r: Vec<u8>)
    requires
        record_total_spec(payload_len as int, extra@.len() as int) <= u64::MAX,
    ensures
        r@ == metadata_spec(payload_len, extra@),
        r@.len() == RECORD_FIELDS_LEN + extra@.len(),
{
    let extra_len = extra.len() as u64;
    let total = RECORD_FIELDS_LEN + extra_len + payload_len;
    let mut r: Vec<u8> = Vec::new();
    push_u64_be(&mut r, total);
    push_u64_be(&mut r, extra_len);
    let mut i: usize = 0;
    while i < extra.len()
        invariant
            0 <= i <= extra@.len(),
            r@ == be_u64(total) + be_u64(extra_len) + extra@.subrange(0, i as int),
        decreases extra@.len() - i,
    {
        r.push(extra[i]);
        assert(extra@.subrange(0, i + 1) == extra@.subrange(0, i as int).push(extra@[i as int]));
        i = i + 1;
    }
    assert(extra@.subrange(0, extra@.len() as int) == extra@);
    r
}

/// Number of padding bytes that bring `offset` to the next multiple of the
/// record alignment (zero where it is already aligned).
pub fn padding_to_align(offset: u64) -> (r: u64)
    ensures
        r < RECORD_ALIGN,
        offset as int + r as int == align_up_spec(offset as int),
        (offset as int + r as int) % 16 == 0,
{
    let rem = offset % RECORD_ALIGN;
    if rem == 0 {
        0
    } else {
        RECORD_ALIGN - rem
    }
}

} // verus!
