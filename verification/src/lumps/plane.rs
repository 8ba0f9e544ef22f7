//! The plane lump: a normal, a distance from the origin, and an axis tag.

use vstd::prelude::*;

use crate::bytes::ByteOrder;
use crate::bytes::read_i32;
use crate::bytes::read_u32;
use crate::bytes::spec_i32;
use crate::bytes::spec_u32;
use crate::lumps::LumpData;
use crate::lumps::vector::Vector;

verus! {

/// A plane. The distance is held as the raw IEEE-754 single-precision bit
/// pattern stored in the file, as the normal's coordinates are.
#[derive(Clone, Copy, Debug, PartialEq, Eq, Structural)]
pub struct Plane {
    /// The plane's normal vector.
    pub normal: Vector,
    /// Distance from the origin, as raw IEEE-754 bits.
    pub distance: u32,
    /// Plane axis identifier.
    pub type_id: i32,
}

impl Plane {
    /// Builds a plane from a normal, a raw distance bit pattern, and an axis
    /// identifier.
    pub fn new(n: Vector, dist: u32, id: i32) -> (r: Plane)
        ensures
            r == (Plane { normal: n, distance: dist, type_id: id }),
    {
        Plane { normal: n, distance: dist, type_id: id }
    }
}

impl LumpData for Plane {
    open spec fn spec_size() -> int {
        20
    }

    open spec fn spec_index() -> int {
        1
    }

    open spec fn decodes(self, o: ByteOrder, b: Seq<u8>) -> bool {
        &&& self.normal.decodes(o, b.subrange(0, 12))
        &&& self.distance == spec_u32(o, b.subrange(12, 16))
        &&& self.type_id == spec_i32(o, b.subrange(16, 20))
    }

    proof fn decodes_unique(a: Self, b: Self, o: ByteOrder, chunk: Seq<u8>) {
        Vector::decodes_unique(a.normal, b.normal, o, chunk.subrange(0, 12));
    }

    fn size() -> usize {
        20
    }

    fn get_index() -> usize {
        1
    }

    fn load(o: ByteOrder, data: &Vec<u8>, pos: usize) -> (r: Self) {
        let normal = Vector::load(o, data, pos);
        let dist = read_u32(o, data, pos + 12);
        let id = read_i32(o, data, pos + 16);
        proof {
            let chunk = data@.subrange(pos as int, pos as int + 20);
            assert(chunk.subrange(0, 12) =~= data@.subrange(pos as int, pos as int + 12));
            assert(chunk.subrange(12, 16) =~= data@.subrange(pos as int + 12, pos as int + 16));
            assert(chunk.subrange(16, 20) =~= data@.subrange(pos as int + 16, pos as int + 20));
        }
        Plane { normal, distance: dist, type_id: id }
    }
}

} // verus!
