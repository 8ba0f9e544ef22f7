//! The vertex lump: three single-precision coordinates per record.

use vstd::prelude::*;

use crate::bytes::ByteOrder;
use crate::bytes::read_u32;
use crate::bytes::spec_u32;
use crate::lumps::LumpData;

verus! {

/// A vertex position. Verus gives floating point no reasoning, so each
/// coordinate is held as the raw IEEE-754 single-precision bit pattern stored
/// in the file; a caller reinterprets it with `f32::from_bits`.
#[derive(Clone, Copy, Debug, PartialEq, Eq, Structural)]
pub struct Vector {
    pub x: u32,
    pub y: u32,
    pub z: u32,
}

impl Vector {
    /// Builds a vertex from three raw coordinate bit patterns.
    pub fn new(x: u32, y: u32, z: u32) -> (r: Vector)
        ensures
            r == (Vector { x, y, z }),
    {
        Vector { x, y, z }
    }
}

impl LumpData for Vector {
    open spec fn spec_size() -> int {
        12
    }

    open spec fn spec_index() -> int {
        3
    }

    open spec fn decodes(self, o: ByteOrder, b: Seq<u8>) -> bool {
        &&& self.x == spec_u32(o, b.subrange(0, 4))
        &&& self.y == spec_u32(o, b.subrange(4, 8))
        &&& self.z == spec_u32(o, b.subrange(8, 12))
    }

    proof fn decodes_unique(a: Self, b: Self, o: ByteOrder, chunk: Seq<u8>) {
    }

    fn size() -> usize {
        12
    }

    fn get_index() -> usize {
        3
    }

    fn load(o: ByteOrder, data: &Vec<u8>, pos: usize) -> (r: Self) {
        let x = read_u32(o, data, pos);
        let y = read_u32(o, data, pos + 4);
        let z = read_u32(o, data, pos + 8);
        proof {
            let chunk = data@.subrange(pos as int, pos as int + 12);
            assert(chunk.subrange(0, 4) =~= data@.subrange(pos as int, pos as int + 4));
            assert(chunk.subrange(4, 8) =~= data@.subrange(pos as int + 4, pos as int + 8));
            assert(chunk.subrange(8, 12) =~= data@.subrange(pos as int + 8, pos as int + 12));
        }
        Vector { x, y, z }
    }
}

} // verus!
