//! Byte-order primitives shared by the serializers.
//!
//! The kernel's vhost structures are encoded field by field in little-endian
//! order at fixed offsets; flattened-device-tree cells are big-endian.

use vstd::prelude::*;

verus! {

/// The four little-endian bytes of a 32-bit value, least significant first.
pub open spec fn le32(v: u32) -> Seq<u8> {
    seq![
        (v & 0xff) as u8,
        ((v >> 8) & 0xff) as u8,
        ((v >> 16) & 0xff) as u8,
        ((v >> 24) & 0xff) as u8,
    ]
}

/// The eight little-endian bytes of a 64-bit value, least significant first.
pub open spec fn le64(v: u64) -> Seq<u8> {
    seq![
        (v & 0xff) as u8,
        ((v >> 8) & 0xff) as u8,
        ((v >> 16) & 0xff) as u8,
        ((v >> 24) & 0xff) as u8,
        ((v >> 32) & 0xff) as u8,
        ((v >> 40) & 0xff) as u8,
        ((v >> 48) & 0xff) as u8,
        ((v >> 56) & 0xff) as u8,
    ]
}

/// The four big-endian bytes of a 32-bit value, most significant first.
pub open spec fn be32(v: u32) -> Seq<u8> {
    seq![
        ((v >> 24) & 0xff) as u8,
        ((v >> 16) & 0xff) as u8,
        ((v >> 8) & 0xff) as u8,
        (v & 0xff) as u8,
    ]
}

/// The eight big-endian bytes of a 64-bit value, most significant first.
pub open spec fn be64(v: u64) -> Seq<u8> {
    seq![
        ((v >> 56) & 0xff) as u8,
        ((v >> 48) & 0xff) as u8,
        ((v >> 40) & 0xff) as u8,
        ((v >> 32) & 0xff) as u8,
        ((v >> 24) & 0xff) as u8,
        ((v >> 16) & 0xff) as u8,
        ((v >> 8) & 0xff) as u8,
        (v & 0xff) as u8,
    ]
}

/// Appends the little-endian bytes of `v` to `buf`.
pub fn push_le32(buf: &mut Vec<u8>, v: u32)
    ensures
        final(buf)@ == old(buf)@ + le32(v),
{
    proof {
        assert(v & 0xff < 256 && (v >> 8) & 0xff < 256 && (v >> 16) & 0xff < 256 && (v >> 24)
            & 0xff < 256) by (bit_vector);
    }
    buf.push((v & 0xff) as u8);
    buf.push(((v >> 8) & 0xff) as u8);
    buf.push(((v >> 16) & 0xff) as u8);
    buf.push(((v >> 24) & 0xff) as u8);
}

/// Appends the little-endian bytes of `v` to `buf`.
pub fn push_le64(buf: &mut Vec<u8>, v: u64)
    ensures
        final(buf)@ == old(buf)@ + le64(v),
{
    proof {
        assert(v & 0xff < 256 && (v >> 8) & 0xff < 256 && (v >> 16) & 0xff < 256 && (v >> 24)
            & 0xff < 256 && (v >> 32) & 0xff < 256 && (v >> 40) & 0xff < 256 && (v >> 48) & 0xff
            < 256 && (v >> 56) & 0xff < 256) by (bit_vector);
    }
    buf.push((v & 0xff) as u8);
    buf.push(((v >> 8) & 0xff) as u8);
    buf.push(((v >> 16) & 0xff) as u8);
    buf.push(((v >> 24) & 0xff) as u8);
    buf.push(((v >> 32) & 0xff) as u8);
    buf.push(((v >> 40) & 0xff) as u8);
    buf.push(((v >> 48) & 0xff) as u8);
    buf.push(((v >> 56) & 0xff) as u8);
}

/// Appends the big-endian bytes of `v` to `buf`.
pub fn push_be32(buf: &mut Vec<u8>, v: u32)
    ensures
        final(buf)@ == old(buf)@ + be32(v),
{
    proof {
        assert(v & 0xff < 256 && (v >> 8) & 0xff < 256 && (v >> 16) & 0xff < 256 && (v >> 24)
            & 0xff < 256) by (bit_vector);
    }
    buf.push(((v >> 24) & 0xff) as u8);
    buf.push(((v >> 16) & 0xff) as u8);
    buf.push(((v >> 8) & 0xff) as u8);
    buf.push((v & 0xff) as u8);
}

/// Appends the big-endian bytes of `v` to `buf`.
pub fn push_be64(buf: &mut Vec<u8>, v: u64)
    ensures
        final(buf)@ == old(buf)@ + be64(v),
{
    proof {
        assert(v & 0xff < 256 && (v >> 8) & 0xff < 256 && (v >> 16) & 0xff < 256 && (v >> 24)
            & 0xff < 256 && (v >> 32) & 0xff < 256 && (v >> 40) & 0xff < 256 && (v >> 48) & 0xff
            < 256 && (v >> 56) & 0xff < 256) by (bit_vector);
    }
    buf.push(((v >> 56) & 0xff) as u8);
    buf.push(((v >> 48) & 0xff) as u8);
    buf.push(((v >> 40) & 0xff) as u8);
    buf.push(((v >> 32) & 0xff) as u8);
    buf.push(((v >> 24) & 0xff) as u8);
    buf.push(((v >> 16) & 0xff) as u8);
    buf.push(((v >> 8) & 0xff) as u8);
    buf.push((v & 0xff) as u8);
}

} // verus!
