//! The face lump: one polygon of the map surface per record.

use vstd::prelude::*;

use crate::bytes::ByteOrder;
use crate::bytes::read_bytes4;
use crate::bytes::read_i16;
use crate::bytes::read_i32;
use crate::bytes::read_u16;
use crate::bytes::read_u32;
use crate::bytes::read_u8;
use crate::bytes::spec_i16;
use crate::bytes::spec_i32;
use crate::bytes::spec_u16;
use crate::bytes::spec_u32;
use crate::lumps::LumpData;

verus! {

/// A face. `area` is held as the raw IEEE-754 single-precision bit pattern
/// stored in the file; a caller reinterprets it with `f32::from_bits`.
#[derive(Clone, Copy, Debug, PartialEq, Eq)]
pub struct Face {
    pub plane_num: u16,
    pub side: u8,
    pub on_node: u8,
    pub first_edge: i32,
    pub num_edges: i16,
    pub tex_info: i16,
    pub disp_info: i16,
    pub surface_fog_volume_id: i16,
    pub styles: [u8; 4],
    pub light_ofs: i32,
    /// Face area, as raw IEEE-754 bits.
    pub area: u32,
    pub lightmap_texture_mins_in_luxels: [i32; 2],
    pub lightmap_texture_size_in_luxels: [i32; 2],
    pub orig_face: i32,
    pub num_prims: u16,
    pub first_prim_id: u16,
    pub smoothing_groups: u32,
}

impl LumpData for Face {
    open spec fn spec_size() -> int {
        56
    }

    open spec fn spec_index() -> int {
        7
    }

    open spec fn decodes(self, o: ByteOrder, b: Seq<u8>) -> bool {
        &&& self.plane_num == spec_u16(o, b.subrange(0, 2))
        &&& self.side == b[2]
        &&& self.on_node == b[3]
        &&& self.first_edge == spec_i32(o, b.subrange(4, 8))
        &&& self.num_edges == spec_i16(o, b.subrange(8, 10))
        &&& self.tex_info == spec_i16(o, b.subrange(10, 12))
        &&& self.disp_info == spec_i16(o, b.subrange(12, 14))
        &&& self.surface_fog_volume_id == spec_i16(o, b.subrange(14, 16))
        &&& self.styles@ == b.subrange(16, 20)
        &&& self.light_ofs == spec_i32(o, b.subrange(20, 24))
        &&& self.area == spec_u32(o, b.subrange(24, 28))
        &&& self.lightmap_texture_mins_in_luxels@[0] == spec_i32(o, b.subrange(28, 32))
        &&& self.lightmap_texture_mins_in_luxels@[1] == spec_i32(o, b.subrange(32, 36))
        &&& self.lightmap_texture_size_in_luxels@[0] == spec_i32(o, b.subrange(36, 40))
        &&& self.lightmap_texture_size_in_luxels@[1] == spec_i32(o, b.subrange(40, 44))
        &&& self.orig_face == spec_i32(o, b.subrange(44, 48))
        &&& self.num_prims == spec_u16(o, b.subrange(48, 50))
        &&& self.first_prim_id == spec_u16(o, b.subrange(50, 52))
        &&& self.smoothing_groups == spec_u32(o, b.subrange(52, 56))
    }

    proof fn decodes_unique(a: Self, b: Self, o: ByteOrder, chunk: Seq<u8>) {
        assert(a.styles =~= b.styles);
        assert(a.lightmap_texture_mins_in_luxels =~= b.lightmap_texture_mins_in_luxels);
        assert(a.lightmap_texture_size_in_luxels =~= b.lightmap_texture_size_in_luxels);
    }

    fn size() -> usize {
        56
    }

    fn get_index() -> usize {
        7
    }

    fn load(o: ByteOrder, data: &Vec<u8>, pos: usize) -> (r: Self) {
        let plane_num = read_u16(o, data, pos);
        let side = read_u8(data, pos + 2);
        let on_node = read_u8(data, pos + 3);
        let first_edge = read_i32(o, data, pos + 4);
        let num_edges = read_i16(o, data, pos + 8);
        let tex_info = read_i16(o, data, pos + 10);
        let disp_info = read_i16(o, data, pos + 12);
        let surface_fog_volume_id = read_i16(o, data, pos + 14);
        let styles = read_bytes4(data, pos + 16);
        let light_ofs = read_i32(o, data, pos + 20);
        let area = read_u32(o, data, pos + 24);
        let mins0 = read_i32(o, data, pos + 28);
        let mins1 = read_i32(o, data, pos + 32);
        let size0 = read_i32(o, data, pos + 36);
        let size1 = read_i32(o, data, pos + 40);
        let orig_face = read_i32(o, data, pos + 44);
        let num_prims = read_u16(o, data, pos + 48);
        let first_prim_id = read_u16(o, data, pos + 50);
        let smoothing_groups = read_u32(o, data, pos + 52);
        proof {
            let p = pos as int;
            let chunk = data@.subrange(p, p + 56);
            assert(chunk.subrange(0, 2) =~= data@.subrange(p, p + 2));
            assert(chunk.subrange(4, 8) =~= data@.subrange(p + 4, p + 8));
            assert(chunk.subrange(8, 10) =~= data@.subrange(p + 8, p + 10));
            assert(chunk.subrange(10, 12) =~= data@.subrange(p + 10, p + 12));
            assert(chunk.subrange(12, 14) =~= data@.subrange(p + 12, p + 14));
            assert(chunk.subrange(14, 16) =~= data@.subrange(p + 14, p + 16));
            assert(chunk.subrange(16, 20) =~= data@.subrange(p + 16, p + 20));
            assert(chunk.subrange(20, 24) =~= data@.subrange(p + 20, p + 24));
            assert(chunk.subrange(24, 28) =~= data@.subrange(p + 24, p + 28));
            assert(chunk.subrange(28, 32) =~= data@.subrange(p + 28, p + 32));
            assert(chunk.subrange(32, 36) =~= data@.subrange(p + 32, p + 36));
            assert(chunk.subrange(36, 40) =~= data@.subrange(p + 36, p + 40));
            assert(chunk.subrange(40, 44) =~= data@.subrange(p + 40, p + 44));
            assert(chunk.subrange(44, 48) =~= data@.subrange(p + 44, p + 48));
            assert(chunk.subrange(48, 50) =~= data@.subrange(p + 48, p + 50));
            assert(chunk.subrange(50, 52) =~= data@.subrange(p + 50, p + 52));
            assert(chunk.subrange(52, 56) =~= data@.subrange(p + 52, p + 56));
        }
        Face {
            plane_num,
            side,
            on_node,
            first_edge,
            num_edges,
            tex_info,
            disp_info,
            surface_fog_volume_id,
            styles,
            light_ofs,
            area,
            lightmap_texture_mins_in_luxels: [mins0, mins1],
            lightmap_texture_size_in_luxels: [size0, size1],
            orig_face,
            num_prims,
            first_prim_id,
            smoothing_groups,
        }
    }
}

} // verus!
