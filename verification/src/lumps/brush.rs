//! The brush and brush-side lumps.

use vstd::prelude::*;

use crate::bytes::ByteOrder;
use crate::bytes::read_i16;
use crate::bytes::read_i32;
use crate::bytes::read_u16;
use crate::bytes::spec_i16;
use crate::bytes::spec_i32;
use crate::bytes::spec_u16;
use crate::lumps::LumpData;

verus! {

/// A brush: a run of sides in the brush-side lump and a contents bitmask.
#[derive(Clone, Copy, Debug, PartialEq, Eq, Structural)]
pub struct Brush {
    pub first_side: i32,
    pub num_sides: i32,
    /// Contents bitmask.
    pub contents: i32,
}

impl Brush {
    /// Builds a brush from its side range and contents bitmask.
    pub fn new(first_side: i32, num_sides: i32, contents: i32) -> (r: Brush)
        ensures
            r == (Brush { first_side, num_sides, contents }),
    {
        Brush { first_side, num_sides, contents }
    }
}

impl LumpData for Brush {
    open spec fn spec_size() -> int {
        12
    }

    open spec fn spec_index() -> int {
        18
    }

    open spec fn decodes(self, o: ByteOrder, b: Seq<u8>) -> bool {
        &&& self.first_side == spec_i32(o, b.subrange(0, 4))
        &&& self.num_sides == spec_i32(o, b.subrange(4, 8))
        &&& self.contents == spec_i32(o, b.subrange(8, 12))
    }

    proof fn decodes_unique(a: Self, b: Self, o: ByteOrder, chunk: Seq<u8>) {
    }

    fn size() -> usize {
        12
    }

    fn get_index() -> usize {
        18
    }

    fn load(o: ByteOrder, data: &Vec<u8>, pos: usize) -> (r: Self) {
        let first_side = read_i32(o, data, pos);
        let num_sides = read_i32(o, data, pos + 4);
        let contents = read_i32(o, data, pos + 8);
        proof {
            let chunk = data@.subrange(pos as int, pos as int + 12);
            assert(chunk.subrange(0, 4) =~= data@.subrange(pos as int, pos as int + 4));
            assert(chunk.subrange(4, 8) =~= data@.subrange(pos as int + 4, pos as int + 8));
            assert(chunk.subrange(8, 12) =~= data@.subrange(pos as int + 8, pos as int + 12));
        }
        Brush { first_side, num_sides, contents }
    }
}

/// One side of a brush: the plane it lies on and its texture, displacement
/// and bevel tags.
#[derive(Clone, Copy, Debug, PartialEq, Eq, Structural)]
pub struct BrushSide {
    pub plane_num: u16,
    pub tex_info: i16,
    pub disp_info: i16,
    pub bevel: i16,
}

impl BrushSide {
    /// Builds a brush side from its four fields.
    pub fn new(plane_num: u16, tex_info: i16, disp_info: i16, bevel: i16) -> (r: BrushSide)
        ensures
            r == (BrushSide { plane_num, tex_info, disp_info, bevel }),
    {
        BrushSide { plane_num, tex_info, disp_info, bevel }
    }
}

impl LumpData for BrushSide {
    open spec fn spec_size() -> int {
        8
    }

    open spec fn spec_index() -> int {
        19
    }

    open spec fn decodes(self, o: ByteOrder, b: Seq<u8>) -> bool {
        &&& self.plane_num == spec_u16(o, b.subrange(0, 2))
        &&& self.tex_info == spec_i16(o, b.subrange(2, 4))
        &&& self.disp_info == spec_i16(o, b.subrange(4, 6))
        &&& self.bevel == spec_i16(o, b.subrange(6, 8))
    }

    proof fn decodes_unique(a: Self, b: Self, o: ByteOrder, chunk: Seq<u8>) {
    }

    fn size() -> usize {
        8
    }

    fn get_index() -> usize {
        19
    }

    fn load(o: ByteOrder, data: &Vec<u8>, pos: usize) -> (r: Self) {
        let plane_num = read_u16(o, data, pos);
        let tex_info = read_i16(o, data, pos + 2);
        let disp_info = read_i16(o, data, pos + 4);
        let bevel = read_i16(o, data, pos + 6);
        proof {
            let chunk = data@.subrange(pos as int, pos as int + 8);
            assert(chunk.subrange(0, 2) =~= data@.subrange(pos as int, pos as int + 2));
            assert(chunk.subrange(2, 4) =~= data@.subrange(pos as int + 2, pos as int + 4));
            assert(chunk.subrange(4, 6) =~= data@.subrange(pos as int + 4, pos as int + 6));
            assert(chunk.subrange(6, 8) =~= data@.subrange(pos as int + 6, pos as int + 8));
        }
        BrushSide { plane_num, tex_info, disp_info, bevel }
    }
}

} // verus!
