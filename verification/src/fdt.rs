//! Cell encoding for flattened-device-tree properties.
//!
//! The device-tree blob itself is produced by an external builder consumed
//! through an append-only byte-buffer protocol; its binary format is fixed
//! and not redesigned here. What the builder is fed, though, is exact: every
//! numeric property value is one or more big-endian cells. This module
//! encodes those values; the embedding program appends them as raw property
//! bytes.

use vstd::prelude::*;

use crate::endian::{be32, be64, push_be32, push_be64};

verus! {

/// The big-endian bytes of a sequence of 32-bit cells, in order.
pub open spec fn be32_cells(cells: Seq<u32>) -> Seq<u8>
    decreases cells.len(),
{
    if cells.len() == 0 {
        Seq::empty()
    } else {
        be32_cells(cells.drop_last()) + be32(cells.last())
    }
}

/// The big-endian bytes of a sequence of 64-bit cells, in order.
pub open spec fn be64_cells(cells: Seq<u64>) -> Seq<u8>
    decreases cells.len(),
{
    if cells.len() == 0 {
        Seq::empty()
    } else {
        be64_cells(cells.drop_last()) + be64(cells.last())
    }
}

/// A 32-bit value in device-tree byte order.
pub fn cpu_to_fdt32(input: u32) -> (r: [u8; 4])
    ensures
        r@ == be32(input),
{
    proof {
        assert(input & 0xff < 256 && (input >> 8) & 0xff < 256 && (input >> 16) & 0xff < 256 && (
        input >> 24) & 0xff < 256) by (bit_vector);
    }
    [
        ((input >> 24) & 0xff) as u8,
        ((input >> 16) & 0xff) as u8,
        ((input >> 8) & 0xff) as u8,
        (input & 0xff) as u8,
    ]
}

/// A 64-bit value in device-tree byte order.
pub fn cpu_to_fdt64(input: u64) -> (r: [u8; 8])
    ensures
        r@ == be64(input),
{
    proof {
        assert(input & 0xff < 256 && (input >> 8) & 0xff < 256 && (input >> 16) & 0xff < 256 && (
        input >> 24) & 0xff < 256 && (input >> 32) & 0xff < 256 && (input >> 40) & 0xff < 256 && (
        input >> 48) & 0xff < 256 && (input >> 56) & 0xff < 256) by (bit_vector);
    }
    [
        ((input >> 56) & 0xff) as u8,
        ((input >> 48) & 0xff) as u8,
        ((input >> 40) & 0xff) as u8,
        ((input >> 32) & 0xff) as u8,
        ((input >> 24) & 0xff) as u8,
        ((input >> 16) & 0xff) as u8,
        ((input >> 8) & 0xff) as u8,
        (input & 0xff) as u8,
    ]
}

/// The value bytes of a property holding one 32-bit cell.
pub fn property_u32(val: u32) -> (r: Vec<u8>)
    ensures
        r@ == be32(val),
{
    let mut ret: Vec<u8> = Vec::new();
    push_be32(&mut ret, val);
    ret
}

/// The value bytes of a property holding one 64-bit cell.
pub fn property_u64(val: u64) -> (r: Vec<u8>)
    ensures
        r@ == be64(val),
{
    let mut ret: Vec<u8> = Vec::new();
    push_be64(&mut ret, val);
    ret
}

/// A properly formatted property value built from 32-bit cells.
pub fn generate_prop32(cells: &[u32]) -> (r: Vec<u8>)
    ensures
        r@ == be32_cells(cells@),
{
    let mut ret: Vec<u8> = Vec::new();
    proof {
        assert(cells@.take(0) =~= Seq::<u32>::empty());
    }
    let n = cells.len();
    let mut i: usize = 0;
    while i < n
        invariant
            n == cells@.len(),
            i <= n,
            ret@ == be32_cells(cells@.take(i as int)),
        decreases n - i,
    {
        push_be32(&mut ret, cells[i]);
        proof {
            assert(cells@.take(i + 1).drop_last() =~= cells@.take(i as int));
            assert(cells@.take(i + 1).last() == cells@[i as int]);
        }
        i += 1;
    }
    proof {
        assert(cells@.take(n as int) =~= cells@);
    }
    ret
}

/// A properly formatted property value built from 64-bit cells.
pub fn generate_prop64(cells: &[u64]) -> (r: Vec<u8>)
    ensures
        r@ == be64_cells(cells@),
{
    let mut ret: Vec<u8> = Vec::new();
    proof {
        assert(cells@.take(0) =~= Seq::<u64>::empty());
    }
    let n = cells.len();
    let mut i: usize = 0;
    while i < n
        invariant
            n == cells@.len(),
            i <= n,
            ret@ == be64_cells(cells@.take(i as int)),
        decreases n - i,
    {
        push_be64(&mut ret, cells[i]);
        proof {
            assert(cells@.take(i + 1).drop_last() =~= cells@.take(i as int));
            assert(cells@.take(i + 1).last() == cells@[i as int]);
        }
        i += 1;
    }
    proof {
        assert(cells@.take(n as int) =~= cells@);
    }
    ret
}

} // verus!
