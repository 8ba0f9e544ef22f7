//! Primitive reads from an in-memory byte source, in a selectable byte order.
//!
//! A BSP file stores every multi-byte field in the byte order announced by the
//! file's magic, so every decoder below takes the [`ByteOrder`] chosen at
//! header-decode time. Each executable read is proved against a spec function
//! that states the value as plain arithmetic over the bytes.

use vstd::prelude::*;

verus! {

/// The byte order selected from a BSP file's magic and used for every
/// subsequent multi-byte read from that file.
#[derive(Clone, Copy, Debug, PartialEq, Eq, Structural)]
pub enum ByteOrder {
    Little,
    Big,
}

/// The unsigned 16-bit value stored in the two bytes `b`, read in order `o`.
pub open spec fn spec_u16(o: ByteOrder, b: Seq<u8>) -> u16
    recommends
        b.len() == 2,
{
    match o {
        ByteOrder::Little => (b[0] + b[1] * 0x100) as u16,
        ByteOrder::Big => (b[1] + b[0] * 0x100) as u16,
    }
}

/// The unsigned 32-bit value stored in the four bytes `b`, read in order `o`.
pub open spec fn spec_u32(o: ByteOrder, b: Seq<u8>) -> u32
    recommends
        b.len() == 4,
{
    match o {
        ByteOrder::Little => (b[0] + b[1] * 0x100 + b[2] * 0x10000 + b[3] * 0x1000000) as u32,
        ByteOrder::Big => (b[3] + b[2] * 0x100 + b[1] * 0x10000 + b[0] * 0x1000000) as u32,
    }
}

/// Reinterprets an unsigned 16-bit value as two's-complement signed.
pub open spec fn spec_as_i16(w: u16) -> i16 {
    if w < 0x8000 {
        w as i16
    } else {
        (w - 0x10000) as i16
    }
}

/// Reinterprets an unsigned 32-bit value as two's-complement signed.
pub open spec fn spec_as_i32(w: u32) -> i32 {
    if w < 0x8000_0000 {
        w as i32
    } else {
        (w - 0x1_0000_0000) as i32
    }
}

/// The signed 16-bit value stored in the two bytes `b`, read in order `o`.
pub open spec fn spec_i16(o: ByteOrder, b: Seq<u8>) -> i16 {
    spec_as_i16(spec_u16(o, b))
}

/// The signed 32-bit value stored in the four bytes `b`, read in order `o`.
pub open spec fn spec_i32(o: ByteOrder, b: Seq<u8>) -> i32 {
    spec_as_i32(spec_u32(o, b))
}

/// Reads the single byte at `pos`.
pub fn read_u8(data: &Vec<u8>, pos: usize) -> (r: u8)
    requires
        pos < data.len(),
    ensures
        r == data@[pos as int],
{
    data[pos]
}

/// Reads an unsigned 16-bit value at `pos` in order `o`.
pub fn read_u16(o: ByteOrder, data: &Vec<u8>, pos: usize) -> (r: u16)
    requires
        pos + 2 <= data.len(),
    ensures
        r == spec_u16(o, data@.subrange(pos as int, pos as int + 2)),
{
    let b0 = data[pos];
    let b1 = data[pos + 1];
    match o {
        ByteOrder::Little => b0 as u16 + b1 as u16 * 0x100,
        ByteOrder::Big => b1 as u16 + b0 as u16 * 0x100,
    }
}

/// Reads an unsigned 32-bit value at `pos` in order `o`.
pub fn read_u32(o: ByteOrder, data: &Vec<u8>, pos: usize) -> (r: u32)
    requires
        pos + 4 <= data.len(),
    ensures
        r == spec_u32(o, data@.subrange(pos as int, pos as int + 4)),
{
    let b0 = data[pos];
    let b1 = data[pos + 1];
    let b2 = data[pos + 2];
    let b3 = data[pos + 3];
    match o {
        ByteOrder::Little => b0 as u32 + b1 as u32 * 0x100 + b2 as u32 * 0x10000 + b3 as u32
            * 0x1000000,
        ByteOrder::Big => b3 as u32 + b2 as u32 * 0x100 + b1 as u32 * 0x10000 + b0 as u32
            * 0x1000000,
    }
}

/// Reads a signed 16-bit value at `pos` in order `o`.
pub fn read_i16(o: ByteOrder, data: &Vec<u8>, pos: usize) -> (r: i16)
    requires
        pos + 2 <= data.len(),
    ensures
        r == spec_i16(o, data@.subrange(pos as int, pos as int + 2)),
{
    let w = read_u16(o, data, pos);
    if w < 0x8000 {
        w as i16
    } else {
        ((w as i32) - 0x1_0000) as i16
    }
}

/// Reads a signed 32-bit value at `pos` in order `o`.
pub fn read_i32(o: ByteOrder, data: &Vec<u8>, pos: usize) -> (r: i32)
    requires
        pos + 4 <= data.len(),
    ensures
        r == spec_i32(o, data@.subrange(pos as int, pos as int + 4)),
{
    let w = read_u32(o, data, pos);
    if w < 0x8000_0000 {
        w as i32
    } else {
        ((w as i64) - 0x1_0000_0000) as i32
    }
}

/// Reads four raw bytes at `pos`, uninterpreted.
pub fn read_bytes4(data: &Vec<u8>, pos: usize) -> (r: [u8; 4])
    requires
        pos + 4 <= data.len(),
    ensures
        r@ == data@.subrange(pos as int, pos as int + 4),
{
    let r = [data[pos], data[pos + 1], data[pos + 2], data[pos + 3]];
    proof {
        assert(r@ =~= data@.subrange(pos as int, pos as int + 4));
    }
    r
}

} // verus!
