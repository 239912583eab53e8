//! The integer encodings that frames are written with.

use vstd::prelude::*;

use crate::frame::VARINT_LIMIT;

verus! {

/// The `n` low-order bytes of `v`, most significant first.
pub open spec fn be_bytes(v: nat, n: nat) -> Seq<u8>
    decreases n,
{
    if n == 0 {
        Seq::empty()
    } else {
        be_bytes(v / 256, (n - 1) as nat).push((v % 256) as u8)
    }
}

/// The number of bytes that the variable-length encoding of `v` takes.
pub open spec fn varint_len(v: u64) -> nat {
    if v < 0x40 {
        1
    } else if v < 0x4000 {
        2
    } else if v < 0x4000_0000 {
        4
    } else {
        8
    }
}

/// The variable-length encoding of `v`: the shortest of 1, 2, 4 or 8 bytes
/// that holds `v` in all but the two highest bits, which tell the length.
/// It is meant for values below [`VARINT_LIMIT`].
pub open spec fn varint_bytes(v: u64) -> Seq<u8> {
    if v < 0x40 {
        be_bytes(v as nat, 1)
    } else if v < 0x4000 {
        be_bytes((v + 0x4000) as nat, 2)
    } else if v < 0x4000_0000 {
        be_bytes((v + 0x8000_0000) as nat, 4)
    } else {
        be_bytes((v + 0xC000_0000_0000_0000) as nat, 8)
    }
}

/// `be_bytes` gives as many bytes as it is asked for.
pub proof fn lemma_be_bytes_len(v: nat, n: nat)
    ensures
        be_bytes(v, n).len() == n,
    decreases n,
{
    if n > 0 {
        lemma_be_bytes_len(v / 256, (n - 1) as nat);
    }
}

/// A variable-length integer takes as many bytes as `varint_len` says.
pub proof fn lemma_varint_bytes_len(v: u64)
    ensures
        varint_bytes(v).len() == varint_len(v),
{
    lemma_be_bytes_len(v as nat, 1);
    lemma_be_bytes_len((v + 0x4000) as nat, 2);
    lemma_be_bytes_len((v + 0x8000_0000) as nat, 4);
    lemma_be_bytes_len((v + 0xC000_0000_0000_0000) as nat, 8);
}

/// Appends the `n` low-order bytes of `v` to `buf`, most significant first.
pub fn encode_uint(buf: &mut Vec<u8>, n: usize, v: u64)
    requires
        n <= 8,
    ensures
        final(buf)@ == old(buf)@ + be_bytes(v as nat, n as nat),
    decreases n,
{
    if n > 0 {
        encode_uint(buf, n - 1, v / 256);
        buf.push((v % 256) as u8);
    }
}

/// Appends the variable-length encoding of `v` to `buf`.
pub fn encode_varint(buf: &mut Vec<u8>, v: u64)
    requires
        v < VARINT_LIMIT,
    ensures
        final(buf)@ == old(buf)@ + varint_bytes(v),
{
    if v < 0x40 {
        encode_uint(buf, 1, v);
    } else if v < 0x4000 {
        encode_uint(buf, 2, v + 0x4000);
    } else if v < 0x4000_0000 {
        encode_uint(buf, 4, v + 0x8000_0000);
    } else {
        encode_uint(buf, 8, v + 0xC000_0000_0000_0000);
    }
}

} // verus!
