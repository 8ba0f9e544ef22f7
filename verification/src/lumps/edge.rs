//! The edge lump: two vertex indices per record.

use vstd::prelude::*;

use crate::bytes::ByteOrder;
use crate::bytes::read_u16;
use crate::bytes::spec_u16;
use crate::lumps::LumpData;

verus! {

/// An edge: the indices of its two endpoints in the vertex lump.
#[derive(Clone, Copy, Debug, PartialEq, Eq)]
pub struct Edge {
    pub v: [u16; 2],
}

impl Edge {
    /// Builds an edge from its two vertex indices.
    pub fn new(v: [u16; 2]) -> (r: Edge)
        ensures
            r.v == v,
    {
        Edge { v }
    }
}

impl LumpData for Edge {
    open spec fn spec_size() -> int {
        4
    }

    open spec fn spec_index() -> int {
        12
    }

    open spec fn decodes(self, o: ByteOrder, b: Seq<u8>) -> bool {
        &&& self.v@[0] == spec_u16(o, b.subrange(0, 2))
        &&& self.v@[1] == spec_u16(o, b.subrange(2, 4))
    }

    proof fn decodes_unique(a: Self, b: Self, o: ByteOrder, chunk: Seq<u8>) {
        assert(a.v =~= b.v);
    }

    fn size() -> usize {
        4
    }

    fn get_index() -> usize {
        12
    }

    fn load(o: ByteOrder, data: &Vec<u8>, pos: usize) -> (r: Self) {
        let v0 = read_u16(o, data, pos);
        let v1 = read_u16(o, data, pos + 2);
        proof {
            let chunk = data@.subrange(pos as int, pos as int + 4);
            assert(chunk.subrange(0, 2) =~= data@.subrange(pos as int, pos as int + 2));
            assert(chunk.subrange(2, 4) =~= data@.subrange(pos as int + 2, pos as int + 4));
        }
        Edge { v: [v0, v1] }
    }
}

} // verus!
