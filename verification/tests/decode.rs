use bsp::BspError;
use bsp::BspFile;
use bsp::bytes::ByteOrder;
use bsp::lumps::brush::Brush;
use bsp::lumps::brush::BrushSide;
use bsp::lumps::edge::Edge;
use bsp::lumps::face::Face;
use bsp::lumps::plane::Plane;
use bsp::lumps::surfedge::SurfEdge;
use bsp::lumps::vector::Vector;
use std::str;

fn put_i32(v: &mut Vec<u8>, little: bool, x: i32) {
    if little {
        v.extend_from_slice(&x.to_le_bytes());
    } else {
        v.extend_from_slice(&x.to_be_bytes());
    }
}

fn put_u32(v: &mut Vec<u8>, little: bool, x: u32) {
    if little {
        v.extend_from_slice(&x.to_le_bytes());
    } else {
        v.extend_from_slice(&x.to_be_bytes());
    }
}

fn put_u16(v: &mut Vec<u8>, little: bool, x: u16) {
    if little {
        v.extend_from_slice(&x.to_le_bytes());
    } else {
        v.extend_from_slice(&x.to_be_bytes());
    }
}

fn put_i16(v: &mut Vec<u8>, little: bool, x: i16) {
    if little {
        v.extend_from_slice(&x.to_le_bytes());
    } else {
        v.extend_from_slice(&x.to_be_bytes());
    }
}

fn put_f32(v: &mut Vec<u8>, little: bool, x: f32) {
    put_u32(v, little, x.to_bits());
}

/// Builds a 1036-byte header: magic, version, 64 directory slots, revision.
/// Slots named in `slots` get (offset, length); all others are absent
/// (offset and length -1). Sub-versions are 0 and four-character codes are
/// the slot index repeated, so tests can check they come through untouched.
fn fixture(little: bool, version: i32, revision: i32, slots: &[(usize, i32, i32)]) -> Vec<u8> {
    let mut v = Vec::new();
    v.extend_from_slice(if little { b"VBSP" } else { b"PSBV" });
    put_i32(&mut v, little, version);
    for slot in 0..64usize {
        let mut off: i32 = -1;
        let mut len: i32 = -1;
        for &(s, o, l) in slots {
            if s == slot {
                off = o;
                len = l;
            }
        }
        put_i32(&mut v, little, off);
        put_i32(&mut v, little, len);
        put_i32(&mut v, little, 0);
        v.extend_from_slice(&[slot as u8; 4]);
    }
    put_i32(&mut v, little, revision);
    v
}

#[test]
fn load_header() {
    let mut data = fixture(true, 20, 1555, &[(0, 2000, 434240)]);
    data.resize(2000, 0);
    let bsp_file = BspFile::new(data).unwrap();
    let header = bsp_file.header();
    let string = str::from_utf8(&header.magic).unwrap();

    assert_eq!(string, "VBSP");
    assert_eq!(header.version, 20);
    assert_eq!(header.map_revision, 1555);
    assert_eq!(header.slot_of(0).length, 434240);
}

#[test]
fn load_vertex_lump() {
    let mut data = fixture(true, 20, 1555, &[(3, 1036, 24)]);
    put_f32(&mut data, true, 0.0);
    put_f32(&mut data, true, 0.0);
    put_f32(&mut data, true, 0.0);
    put_f32(&mut data, true, 4854.69);
    put_f32(&mut data, true, 13350.1);
    put_f32(&mut data, true, -861.289);

    let bsp_file = BspFile::new(data).unwrap();
    let vec_lump = bsp_file.read_lump::<Vector>().unwrap();

    if let Some(v) = vec_lump {
        assert_eq!(v.len(), 2);
        assert_eq!(v[0], Vector::new(0.0f32.to_bits(), 0.0f32.to_bits(), 0.0f32.to_bits()));
        assert!((f32::from_bits(v[1].x) - 4854.69).abs() < 0.01);
        assert!((f32::from_bits(v[1].y) - 13350.1).abs() < 0.01);
        assert!((f32::from_bits(v[1].z) - -861.289).abs() < 0.01);
    } else {
        panic!("ain't got no vertices!");
    }
}

#[test]
fn load_face_lump() {
    let mut data = fixture(true, 20, 1555, &[(7, 1036, 56)]);
    put_u16(&mut data, true, 12);
    data.push(1);
    data.push(0);
    put_i32(&mut data, true, 77);
    put_i16(&mut data, true, 4);
    put_i16(&mut data, true, 3);
    put_i16(&mut data, true, -1);
    put_i16(&mut data, true, -1);
    data.extend_from_slice(&[9, 8, 7, 6]);
    put_i32(&mut data, true, 640);
    put_f32(&mut data, true, 48.5);
    put_i32(&mut data, true, -2);
    put_i32(&mut data, true, -3);
    put_i32(&mut data, true, 16);
    put_i32(&mut data, true, 8);
    put_i32(&mut data, true, 41);
    put_u16(&mut data, true, 0);
    put_u16(&mut data, true, 0);
    put_u32(&mut data, true, 0x80000001);

    let bsp_file = BspFile::new(data).unwrap();
    let lump = bsp_file.read_lump::<Face>().unwrap();

    if let Some(faces) = lump {
        println!("{:?}", faces[0]);
    } else {
        panic!("ain't got no faces!");
    }
}

#[test]
fn face_fields_decode_in_declaration_order() {
    let mut data = fixture(true, 20, 1555, &[(7, 1036, 56)]);
    put_u16(&mut data, true, 12);
    data.push(1);
    data.push(0);
    put_i32(&mut data, true, 77);
    put_i16(&mut data, true, 4);
    put_i16(&mut data, true, 3);
    put_i16(&mut data, true, -1);
    put_i16(&mut data, true, -1);
    data.extend_from_slice(&[9, 8, 7, 6]);
    put_i32(&mut data, true, 640);
    put_f32(&mut data, true, 48.5);
    put_i32(&mut data, true, -2);
    put_i32(&mut data, true, -3);
    put_i32(&mut data, true, 16);
    put_i32(&mut data, true, 8);
    put_i32(&mut data, true, 41);
    put_u16(&mut data, true, 5);
    put_u16(&mut data, true, 6);
    put_u32(&mut data, true, 0x80000001);

    let bsp_file = BspFile::new(data).unwrap();
    let faces = bsp_file.read_lump::<Face>().unwrap().expect("face lump is present");
    assert_eq!(faces.len(), 1);
    let f = &faces[0];
    assert_eq!(f.plane_num, 12);
    assert_eq!(f.side, 1);
    assert_eq!(f.on_node, 0);
    assert_eq!(f.first_edge, 77);
    assert_eq!(f.num_edges, 4);
    assert_eq!(f.tex_info, 3);
    assert_eq!(f.disp_info, -1);
    assert_eq!(f.surface_fog_volume_id, -1);
    assert_eq!(f.styles, [9, 8, 7, 6]);
    assert_eq!(f.light_ofs, 640);
    assert_eq!(f32::from_bits(f.area), 48.5);
    assert_eq!(f.lightmap_texture_mins_in_luxels, [-2, -3]);
    assert_eq!(f.lightmap_texture_size_in_luxels, [16, 8]);
    assert_eq!(f.orig_face, 41);
    assert_eq!(f.num_prims, 5);
    assert_eq!(f.first_prim_id, 6);
    assert_eq!(f.smoothing_groups, 0x80000001);
}

#[test]
fn unknown_magic_is_a_format_error() {
    let mut data = fixture(true, 20, 1555, &[]);
    data[0] = b'A';
    data[1] = b'B';
    data[2] = b'C';
    data[3] = b'D';
    assert_eq!(BspFile::new(data).unwrap_err(), BspError::UnknownMagic);
}

#[test]
fn short_source_is_an_end_error() {
    assert_eq!(BspFile::new(vec![b'V', b'B']).unwrap_err(), BspError::UnexpectedEnd);
    let data = fixture(true, 20, 1555, &[]);
    let truncated = data[..1000].to_vec();
    assert_eq!(BspFile::new(truncated).unwrap_err(), BspError::UnexpectedEnd);
}

#[test]
fn big_endian_file_decodes_every_field_big_endian() {
    let mut data = fixture(false, 20, 1555, &[(3, 1036, 12), (12, 1048, 4), (0, 2000, 434240)]);
    put_f32(&mut data, false, 4854.69);
    put_f32(&mut data, false, 13350.1);
    put_f32(&mut data, false, -861.289);
    put_u16(&mut data, false, 0x0102);
    put_u16(&mut data, false, 0x2030);

    let bsp_file = BspFile::new(data).unwrap();
    let header = bsp_file.header();
    assert_eq!(&header.magic, b"PSBV");
    assert_eq!(header.order, ByteOrder::Big);
    assert_eq!(header.version, 20);
    assert_eq!(header.map_revision, 1555);
    assert_eq!(header.slot_of(0).offset, 2000);
    assert_eq!(header.slot_of(0).length, 434240);

    let v = bsp_file.read_lump::<Vector>().unwrap().expect("vertex lump is present");
    assert_eq!(v.len(), 1);
    assert!((f32::from_bits(v[0].x) - 4854.69).abs() < 0.01);
    assert!((f32::from_bits(v[0].y) - 13350.1).abs() < 0.01);
    assert!((f32::from_bits(v[0].z) - -861.289).abs() < 0.01);

    let edges = bsp_file.read_lump::<Edge>().unwrap().expect("edge lump is present");
    assert_eq!(edges, vec![Edge::new([0x0102, 0x2030])]);
}

#[test]
fn absent_lump_is_no_data_not_empty() {
    let mut data = fixture(true, 19, 7, &[(12, 1036, 0)]);
    data.resize(1100, 0);
    let bsp_file = BspFile::new(data).unwrap();

    // Slot 3 is absent (offset and length -1): no data, not an error.
    let vertices = bsp_file.read_lump::<Vector>().unwrap();
    assert!(vertices.is_none());

    // Slot 12 is present with length 0: an empty sequence, distinct from
    // absence.
    let edges = bsp_file.read_lump::<Edge>().unwrap();
    assert_eq!(edges, Some(vec![]));
}

#[test]
fn misaligned_lump_is_a_format_error() {
    // 13 bytes is not a multiple of the 12-byte vertex record.
    let mut data = fixture(true, 20, 1555, &[(3, 1036, 13)]);
    data.resize(1049, 0);
    let bsp_file = BspFile::new(data).unwrap();
    assert_eq!(bsp_file.read_lump::<Vector>(), Err(BspError::MisalignedLump));
}

#[test]
fn lump_past_the_end_is_an_end_error() {
    // The slot declares 24 bytes but only 12 are in the file.
    let mut data = fixture(true, 20, 1555, &[(3, 1036, 24)]);
    data.resize(1048, 0);
    let bsp_file = BspFile::new(data).unwrap();
    assert_eq!(bsp_file.read_lump::<Vector>(), Err(BspError::UnexpectedEnd));
}

#[test]
fn decoding_twice_yields_identical_sequences() {
    let mut data = fixture(true, 20, 1555, &[(13, 1036, 12)]);
    put_i32(&mut data, true, -5);
    put_i32(&mut data, true, 7);
    put_i32(&mut data, true, i32::MIN);

    let bsp_file = BspFile::new(data).unwrap();
    let first = bsp_file.read_lump::<SurfEdge>().unwrap().expect("surfedge lump is present");
    let second = bsp_file.read_lump::<SurfEdge>().unwrap().expect("surfedge lump is present");
    assert_eq!(first, second);
    assert_eq!(first, vec![SurfEdge::new(-5), SurfEdge::new(7), SurfEdge::new(i32::MIN)]);
}

#[test]
fn edge_lump_decodes_vertex_indices() {
    let mut data = fixture(true, 20, 1555, &[(12, 1036, 8)]);
    put_u16(&mut data, true, 0);
    put_u16(&mut data, true, 65535);
    put_u16(&mut data, true, 256);
    put_u16(&mut data, true, 1);

    let bsp_file = BspFile::new(data).unwrap();
    let edges = bsp_file.read_lump::<Edge>().unwrap().expect("edge lump is present");
    assert_eq!(edges, vec![Edge::new([0, 65535]), Edge::new([256, 1])]);
}

#[test]
fn plane_lump_decodes_normal_distance_and_type() {
    let mut data = fixture(true, 20, 1555, &[(1, 1036, 20)]);
    put_f32(&mut data, true, 0.0);
    put_f32(&mut data, true, 1.0);
    put_f32(&mut data, true, 0.0);
    put_f32(&mut data, true, -128.25);
    put_i32(&mut data, true, 2);

    let bsp_file = BspFile::new(data).unwrap();
    let planes = bsp_file.read_lump::<Plane>().unwrap().expect("plane lump is present");
    assert_eq!(planes.len(), 1);
    let expected_normal = Vector::new(0.0f32.to_bits(), 1.0f32.to_bits(), 0.0f32.to_bits());
    assert_eq!(planes[0], Plane::new(expected_normal, (-128.25f32).to_bits(), 2));
    assert_eq!(f32::from_bits(planes[0].distance), -128.25);
}

#[test]
fn brush_lumps_decode_sides_and_contents() {
    let mut data = fixture(true, 20, 1555, &[(18, 1036, 12), (19, 1048, 16)]);
    put_i32(&mut data, true, 3);
    put_i32(&mut data, true, 6);
    put_i32(&mut data, true, 0x1);
    put_u16(&mut data, true, 4);
    put_i16(&mut data, true, -1);
    put_i16(&mut data, true, 0);
    put_i16(&mut data, true, 1);
    put_u16(&mut data, true, 5);
    put_i16(&mut data, true, 2);
    put_i16(&mut data, true, -1);
    put_i16(&mut data, true, 0);

    let bsp_file = BspFile::new(data).unwrap();
    let brushes = bsp_file.read_lump::<Brush>().unwrap().expect("brush lump is present");
    assert_eq!(brushes, vec![Brush::new(3, 6, 0x1)]);
    let sides = bsp_file.read_lump::<BrushSide>().unwrap().expect("brush side lump is present");
    assert_eq!(sides, vec![BrushSide::new(4, -1, 0, 1), BrushSide::new(5, 2, -1, 0)]);
}

#[test]
fn directory_slots_keep_their_tags_and_versions() {
    let data = fixture(true, 20, 1555, &[(5, 1036, 0)]);
    let bsp_file = BspFile::new(data).unwrap();
    let header = bsp_file.header();
    assert_eq!(header.lumps.len(), 64);
    let slot = header.slot_of(5);
    assert_eq!(slot.offset, 1036);
    assert_eq!(slot.length, 0);
    assert_eq!(slot.version, 0);
    assert_eq!(slot.four_cc, [5, 5, 5, 5]);
    let absent = header.slot_of(63);
    assert_eq!(absent.offset, -1);
    assert_eq!(absent.length, -1);
    assert_eq!(absent.four_cc, [63, 63, 63, 63]);
}

#[test]
fn signed_fields_decode_two_s_complement() {
    let mut data = fixture(true, -7, -1, &[(13, 1036, 8)]);
    put_i32(&mut data, true, -1);
    put_i32(&mut data, true, i32::MAX);

    let bsp_file = BspFile::new(data).unwrap();
    assert_eq!(bsp_file.header().version, -7);
    assert_eq!(bsp_file.header().map_revision, -1);
    let refs = bsp_file.read_lump::<SurfEdge>().unwrap().expect("surfedge lump is present");
    assert_eq!(refs, vec![SurfEdge::new(-1), SurfEdge::new(i32::MAX)]);
}
