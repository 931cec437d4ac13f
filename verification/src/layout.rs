//! The persisted layout of a record: a type tag, the owner's key, and the
//! text behind a little-endian length prefix.

use vstd::prelude::*;

verus! {

/// Bytes of the type tag that opens every record.
pub const DISCRIMINATOR_LEN: usize = 8;

/// Bytes of an account key.
pub const KEY_LEN: usize = 32;

/// Bytes of the length prefix in front of the text.
pub const LEN_PREFIX_LEN: usize = 4;

/// Bytes that a record's text may occupy at most.
pub const MAX_TEXT_LEN: usize = 280;

/// Offset of the owner's key in a record.
pub const OWNER_OFFSET: usize = DISCRIMINATOR_LEN;

/// Offset of the text's length prefix in a record.
pub const TEXT_LEN_OFFSET: usize = OWNER_OFFSET + KEY_LEN;

/// Offset of the text's first byte in a record.
pub const TEXT_OFFSET: usize = TEXT_LEN_OFFSET + LEN_PREFIX_LEN;

/// Bytes allocated to every record: tag, key, prefix and the longest text.
pub const RECORD_SPACE: usize = TEXT_OFFSET + MAX_TEXT_LEN;

/// The type tag of a record.
pub const RECORD_DISCRIMINATOR: [u8; 8] = [254, 233, 117, 252, 76, 166, 146, 139];

/// The type tag of a record, as a sequence.
pub open spec fn discriminator() -> Seq<u8> {
    seq![254u8, 233u8, 117u8, 252u8, 76u8, 166u8, 146u8, 139u8]
}

/// The four bytes that stand for `n`, least significant first.
pub open spec fn le32(n: nat) -> Seq<u8>
    recommends
        n <= u32::MAX,
{
    seq![
        (n % 256) as u8,
        ((n / 256) % 256) as u8,
        ((n / 65536) % 256) as u8,
        ((n / 16777216) % 256) as u8,
    ]
}

/// The number that four bytes stand for, least significant first.
pub open spec fn le32_value(bytes: Seq<u8>) -> nat
    recommends
        bytes.len() == 4,
{
    (bytes[0] as nat) + (bytes[1] as nat) * 256 + (bytes[2] as nat) * 65536 + (bytes[3] as nat)
        * 16777216
}

/// `count` zero bytes.
pub open spec fn zeros(count: nat) -> Seq<u8> {
    Seq::new(count, |i: int| 0u8)
}

/// Reading a length prefix gives back the number that was written.
pub proof fn lemma_le32_round_trip(n: nat)
    requires
        n <= u32::MAX,
    ensures
        le32(n).len() == 4,
        le32_value(le32(n)) == n,
{
}

/// Writes `n` as a length prefix at `offset`.
pub fn write_le32(data: &mut Vec<u8>, offset: usize, n: u32)
    requires
        offset + 4 <= old(data).len(),
    ensures
        final(data)@ == old(data)@.subrange(0, offset as int) + le32(n as nat) + old(data)@.subrange(
            offset + 4,
            old(data).len() as int,
        ),
{
    let bytes: [u8; 4] = [
        (n % 256) as u8,
        ((n / 256) % 256) as u8,
        ((n / 65536) % 256) as u8,
        ((n / 16777216) % 256) as u8,
    ];
    assert(bytes@ =~= le32(n as nat));
    write_bytes(data, offset, bytes.as_slice());
}

/// Reads the length prefix at `offset`.
pub fn read_le32(data: &[u8], offset: usize) -> (n: u32)
    requires
        offset + 4 <= data.len(),
    ensures
        n as nat == le32_value(data@.subrange(offset as int, offset + 4)),
{
    let b0: u32 = data[offset] as u32;
    let b1: u32 = data[offset + 1] as u32;
    let b2: u32 = data[offset + 2] as u32;
    let b3: u32 = data[offset + 3] as u32;
    b0 + b1 * 256 + b2 * 65536 + b3 * 16777216
}

/// Writes `src` over the bytes of `data` that start at `offset`.
pub fn write_bytes(data: &mut Vec<u8>, offset: usize, src: &[u8])
    requires
        offset + src.len() <= old(data).len(),
    ensures
        final(data)@ == old(data)@.subrange(0, offset as int) + src@ + old(data)@.subrange(
            offset + src.len(),
            old(data).len() as int,
        ),
{
    let ghost before = data@;
    let mut i: usize = 0;
    while i < src.len()
        invariant
            i <= src.len(),
            offset + src.len() <= before.len(),
            data.len() == before.len(),
            data@ == before.subrange(0, offset as int) + src@.subrange(0, i as int)
                + before.subrange(offset + i, before.len() as int),
        decreases src.len() - i,
    {
        data.set(offset + i, src[i]);
        assert(data@ =~= before.subrange(0, offset as int) + src@.subrange(0, i + 1)
            + before.subrange(offset + i + 1, before.len() as int));
        i += 1;
    }
    assert(src@.subrange(0, src.len() as int) =~= src@);
}

/// Copies the `count` bytes of `data` that start at `offset`.
pub fn read_bytes(data: &[u8], offset: usize, count: usize) -> (out: Vec<u8>)
    requires
        offset + count <= data.len(),
    ensures
        out@ == data@.subrange(offset as int, offset + count),
{
    let mut out: Vec<u8> = Vec::new();
    let mut i: usize = 0;
    while i < count
        invariant
            i <= count,
            offset + count <= data.len(),
            out@ == data@.subrange(offset as int, offset + i),
        decreases count - i,
    {
        out.push(data[offset + i]);
        assert(out@ =~= data@.subrange(offset as int, offset + i + 1));
        i += 1;
    }
    out
}

/// A buffer of `count` zero bytes.
pub fn zeroed(count: usize) -> (out: Vec<u8>)
    ensures
        out@ == zeros(count as nat),
{
    let mut out: Vec<u8> = Vec::new();
    let mut i: usize = 0;
    while i < count
        invariant
            i <= count,
            out@ == zeros(i as nat),
        decreases count - i,
    {
        out.push(0u8);
        assert(out@ =~= zeros((i + 1) as nat));
        i += 1;
    }
    out
}

} // verus!
