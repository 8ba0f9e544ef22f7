//! The surface-edge lump: one signed edge reference per record.

use vstd::prelude::*;

use crate::bytes::ByteOrder;
use crate::bytes::read_i32;
use crate::bytes::spec_i32;
use crate::lumps::LumpData;

verus! {

/// A surface edge: a signed reference into the edge lump. The absolute value
/// is the edge index; the sign encodes the winding direction.
#[derive(Clone, Copy, Debug, PartialEq, Eq, Structural)]
pub struct SurfEdge {
    pub i: i32,
}

impl SurfEdge {
    /// Builds a surface edge from its signed edge reference.
    pub fn new(i: i32) -> (r: SurfEdge)
        ensures
            r == (SurfEdge { i }),
    {
        SurfEdge { i }
    }
}

impl LumpData for SurfEdge {
    open spec fn spec_size() -> int {
        4
    }

    open spec fn spec_index() -> int {
        13
    }

    open spec fn decodes(self, o: ByteOrder, b: Seq<u8>) -> bool {
        self.i == spec_i32(o, b.subrange(0, 4))
    }

    proof fn decodes_unique(a: Self, b: Self, o: ByteOrder, chunk: Seq<u8>) {
    }

    fn size() -> usize {
        4
    }

    fn get_index() -> usize {
        13
    }

    fn load(o: ByteOrder, data: &Vec<u8>, pos: usize) -> (r: Self) {
        let i = read_i32(o, data, pos);
        proof {
            let chunk = data@.subrange(pos as int, pos as int + 4);
            assert(chunk.subrange(0, 4) =~= data@.subrange(pos as int, pos as int + 4));
        }
        SurfEdge { i }
    }
}

} // verus!
