//! The record types stored in a BSP file's lumps.
//!
//! Each lump is a tight packing of fixed-size records of one type. A record
//! type declares, through [`LumpData`], the directory slot that holds its
//! records, its on-disk size, and how one record decodes from its bytes.

use vstd::prelude::*;

use crate::bytes::ByteOrder;

pub mod brush;
pub mod edge;
pub mod face;
pub mod plane;
pub mod surfedge;
pub mod vector;

verus! {

/// The capability of a record type: a fixed directory slot, a fixed on-disk
/// size, and a decoder that reads one record's fields in declaration order
/// using the byte order selected at header-decode time.
pub trait LumpData: Sized {
    /// The on-disk size of one record, in bytes.
    spec fn spec_size() -> int;

    /// The lump directory slot that holds records of this type.
    spec fn spec_index() -> int;

    /// Whether this record is the decoding of the `spec_size()`-byte chunk
    /// `b` under byte order `o`: each field equals the value stored at its
    /// declared position.
    spec fn decodes(self, o: ByteOrder, b: Seq<u8>) -> bool;

    /// A chunk of bytes decodes to exactly one record: the decoding relation
    /// pins every field.
    proof fn decodes_unique(a: Self, b: Self, o: ByteOrder, chunk: Seq<u8>)
        requires
            a.decodes(o, chunk),
            b.decodes(o, chunk),
        ensures
            a == b,
    ;

    /// The on-disk size of one record. Every record type is at least one
    /// byte, so a lump's record count is well defined.
    fn size() -> (s: usize)
        ensures
            s == Self::spec_size(),
            0 < s,
    ;

    /// The directory slot mapped to this record type. An implementation must
    /// prove its slot lies in the directory's range, so a type mapped outside
    /// it is rejected when the implementation is checked, not at a read.
    fn get_index() -> (i: usize)
        ensures
            i == Self::spec_index(),
            i < 64,
    ;

    /// Decodes one record from `data` at byte position `pos` in order `o`.
    fn load(o: ByteOrder, data: &Vec<u8>, pos: usize) -> (r: Self)
        requires
            pos + Self::spec_size() <= data.len(),
        ensures
            r.decodes(o, data@.subrange(pos as int, pos as int + Self::spec_size())),
    ;
}

} // verus!
