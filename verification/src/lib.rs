//! Decoder for Source-engine BSP map files.
//!
//! A BSP file starts with a fixed 1036-byte header: a 4-byte magic that
//! selects the byte order, a format version, a 64-slot lump directory, and a
//! map revision. Each directory slot names the byte range of one lump, a
//! densely packed run of fixed-size records. The library decodes the header
//! once and then, on request, decodes all records of a chosen type from that
//! type's slot.

use vstd::prelude::*;

pub mod bytes;
pub mod lumps;

use crate::bytes::ByteOrder;
use crate::bytes::read_bytes4;
use crate::bytes::read_i32;
use crate::bytes::spec_i32;
use crate::lumps::LumpData;

verus! {

/// How decoding a BSP file can fail. A missing lump is not a failure: it is
/// reported as an explicit absence, never through this type.
#[derive(Clone, Copy, Debug, PartialEq, Eq, Structural)]
pub enum BspError {
    /// The byte source ended before a read: a short header, or a lump whose
    /// declared byte range reaches past the end of the source.
    UnexpectedEnd,
    /// The magic is neither `"VBSP"` nor `"PSBV"`, so no byte order can be
    /// selected and the file is not a BSP file.
    UnknownMagic,
    /// A present lump's byte length is not a multiple of the size of the
    /// record type mapped to its slot.
    MisalignedLump,
}

/// One slot of the lump directory: the byte range, sub-version and
/// four-character tag of one lump. A slot whose offset or length is negative
/// marks its lump as absent from the file.
#[derive(Clone, Copy, Debug, PartialEq, Eq)]
pub struct LumpDirEntry {
    /// Byte offset of the lump from the start of the file.
    pub offset: i32,
    /// Byte length of the lump.
    pub length: i32,
    /// Lump-specific sub-version.
    pub version: i32,
    /// Four-character code: an opaque per-lump tag.
    pub four_cc: [u8; 4],
}

/// Whether the slot `e` marks its lump as absent. A lump is present exactly
/// when its offset and length are both non-negative.
pub open spec fn lump_absent(e: LumpDirEntry) -> bool {
    e.offset < 0 || e.length < 0
}

/// The byte order announced by the first four bytes of the file: `"VBSP"`
/// selects little-endian, the byte-reversed `"PSBV"` big-endian, and anything
/// else is not a BSP file.
pub open spec fn spec_order(b: Seq<u8>) -> Option<ByteOrder> {
    if b.len() >= 4 && b[0] == 0x56u8 && b[1] == 0x42u8 && b[2] == 0x53u8 && b[3] == 0x50u8 {
        Some(ByteOrder::Little)
    } else if b.len() >= 4 && b[0] == 0x50u8 && b[1] == 0x53u8 && b[2] == 0x42u8 && b[3]
        == 0x56u8 {
        Some(ByteOrder::Big)
    } else {
        None
    }
}

/// Whether `e` holds the decoded fields of directory slot `i` of the file
/// `b`, read in order `o`. Slot `i` occupies bytes `8 + 16 * i` up to
/// `24 + 16 * i`: offset, length, sub-version, then the four-character code,
/// in that order.
pub open spec fn entry_matches(o: ByteOrder, b: Seq<u8>, i: int, e: LumpDirEntry) -> bool {
    let base: int = 8 + 16 * i;
    &&& e.offset == spec_i32(o, b.subrange(base, base + 4))
    &&& e.length == spec_i32(o, b.subrange(base + 4, base + 8))
    &&& e.version == spec_i32(o, b.subrange(base + 8, base + 12))
    &&& e.four_cc@ == b.subrange(base + 12, base + 16)
}

/// Whether the file `b` decodes to a header at all: it holds the full
/// 1036-byte header and its magic selects a byte order.
pub open spec fn header_ok(b: Seq<u8>) -> bool {
    b.len() >= 1036 && spec_order(b) is Some
}

/// The error that decoding the header of `b` yields when `!header_ok(b)`:
/// reads stop at the first failure, so a source too short for the magic ends
/// the decode before the magic is judged.
pub open spec fn spec_header_err(b: Seq<u8>) -> BspError {
    if b.len() < 4 {
        BspError::UnexpectedEnd
    } else if spec_order(b) is None {
        BspError::UnknownMagic
    } else {
        BspError::UnexpectedEnd
    }
}

/// Whether `h` is the decoded header of the file `b`: the byte order comes
/// from the magic alone, and every field holds the value stored at its fixed
/// position, read in that order.
pub open spec fn header_matches(b: Seq<u8>, h: BspHeader) -> bool {
    &&& spec_order(b) == Some(h.order)
    &&& h.magic@ == b.subrange(0, 4)
    &&& h.version == spec_i32(h.order, b.subrange(4, 8))
    &&& h.lumps@.len() == 64
    &&& forall|i: int| 0 <= i < 64 ==> entry_matches(h.order, b, i, #[trigger] h.lumps@[i])
    &&& h.map_revision == spec_i32(h.order, b.subrange(1032, 1036))
}

/// The decoded fixed header of a BSP file: magic, format version, the 64-slot
/// lump directory, map revision, and the byte order the magic selected.
#[derive(Debug)]
pub struct BspHeader {
    /// The file's 4-byte magic.
    pub magic: [u8; 4],
    /// Format version.
    pub version: i32,
    /// The 64 lump directory slots, in slot order. Always 64 entries when
    /// decoded by this library.
    pub lumps: Vec<LumpDirEntry>,
    /// Map revision number.
    pub map_revision: i32,
    /// The byte order selected from the magic; every multi-byte field of the
    /// file is read in this order.
    pub order: ByteOrder,
}

impl BspHeader {
    /// A well-formed header holds one directory slot for each of the 64
    /// lumps.
    pub open spec fn wf(self) -> bool {
        self.lumps@.len() == 64
    }

    /// Decodes the fixed header from the start of `data`: the magic, the
    /// byte order it selects, the format version, the 64 directory slots and
    /// the map revision, strictly in file order. Fails on a source shorter
    /// than the 1036-byte header and on an unrecognized magic; no partially
    /// decoded header is ever returned.
    pub fn new(data: &Vec<u8>) -> (r: Result<BspHeader, BspError>)
        ensures
            r is Ok <==> header_ok(data@),
            r matches Ok(h) ==> h.wf() && header_matches(data@, h),
            r matches Err(e) ==> e == spec_header_err(data@),
    {
        if data.len() < 4 {
            return Err(BspError::UnexpectedEnd);
        }
        let order = if data[0] == 0x56 && data[1] == 0x42 && data[2] == 0x53 && data[3] == 0x50 {
            ByteOrder::Little
        } else if data[0] == 0x50 && data[1] == 0x53 && data[2] == 0x42 && data[3] == 0x56 {
            ByteOrder::Big
        } else {
            return Err(BspError::UnknownMagic);
        };
        if data.len() < 1036 {
            return Err(BspError::UnexpectedEnd);
        }
        let magic = read_bytes4(data, 0);
        let version = read_i32(order, data, 4);
        let lumps = Self::read_lump_directory(order, data);
        let map_revision = read_i32(order, data, 1032);
        Ok(BspHeader { magic, version, lumps, map_revision, order })
    }

    /// Decodes the 64 directory slots from their fixed position in `data`,
    /// in slot order.
    fn read_lump_directory(o: ByteOrder, data: &Vec<u8>) -> (lumps: Vec<LumpDirEntry>)
        requires
            data.len() >= 1036,
        ensures
            lumps@.len() == 64,
            forall|i: int| 0 <= i < 64 ==> entry_matches(o, data@, i, #[trigger] lumps@[i]),
    {
        let mut lumps: Vec<LumpDirEntry> = Vec::new();
        let mut index: usize = 0;
        while index < 64
            invariant
                data.len() >= 1036,
                index <= 64,
                lumps@.len() == index,
                forall|i: int| 0 <= i < index ==> entry_matches(o, data@, i, #[trigger] lumps@[i]),
            decreases 64 - index,
        {
            let base: usize = 8 + 16 * index;
            let offset = read_i32(o, data, base);
            let length = read_i32(o, data, base + 4);
            let version = read_i32(o, data, base + 8);
            let four_cc = read_bytes4(data, base + 12);
            let entry = LumpDirEntry { offset, length, version, four_cc };
            lumps.push(entry);
            index = index + 1;
        }
        lumps
    }

    /// The directory slot at `index`: a bounds-checked lookup over the 64
    /// decoded slots. An index outside the directory breaks the contract
    /// rather than reading a neighbouring slot.
    pub fn slot_of(&self, index: usize) -> (e: LumpDirEntry)
        requires
            self.wf(),
            index < 64,
        ensures
            e == self.lumps@[index as int],
    {
        self.lumps[index]
    }
}

/// Whether `records` is the decoding of the lump at byte offset `off` of the
/// file `b`: exactly `count` records of type `L`, the `i`-th decoded from the
/// `i`-th size-of-`L` chunk, so file order and record index are preserved.
pub open spec fn lump_records_match<L: LumpData>(
    o: ByteOrder,
    b: Seq<u8>,
    off: int,
    count: int,
    records: Seq<L>,
) -> bool {
    &&& records.len() == count
    &&& forall|i: int|
        0 <= i < count ==> (#[trigger] records[i]).decodes(
            o,
            b.subrange(off + i * L::spec_size(), off + (i + 1) * L::spec_size()),
        )
}

/// A decoded BSP file: the byte source and the header decoded from it once,
/// at construction. Lump records are decoded from the source on request.
#[derive(Debug)]
pub struct BspFile {
    header: BspHeader,
    data: Vec<u8>,
}

impl BspFile {
    /// The header decoded at construction.
    pub closed spec fn spec_header(self) -> BspHeader {
        self.header
    }

    /// The bytes of the underlying source.
    pub closed spec fn spec_data(self) -> Seq<u8> {
        self.data@
    }

    /// The facade's invariant: the held header is the decoding of the held
    /// bytes. Construction establishes it and nothing mutates the facade.
    pub open spec fn wf(self) -> bool {
        header_matches(self.spec_data(), self.spec_header())
    }

    /// Takes ownership of a byte source and decodes its header once. On
    /// failure the error propagates and no facade is built.
    pub fn new(data: Vec<u8>) -> (r: Result<BspFile, BspError>)
        ensures
            r is Ok <==> header_ok(data@),
            r matches Ok(f) ==> f.wf() && f.spec_data() == data@,
            r matches Err(e) ==> e == spec_header_err(data@),
    {
        let header = match BspHeader::new(&data) {
            Ok(h) => h,
            Err(e) => { return Err(e) },
        };
        Ok(BspFile { header, data })
    }

    /// Read-only access to the decoded header.
    pub fn header(&self) -> (h: &BspHeader)
        ensures
            *h == self.spec_header(),
    {
        &self.header
    }

    /// Decodes every record of type `L` from `L`'s lump.
    ///
    /// The slot mapped to `L` decides the outcome: an absent slot yields
    /// `Ok(None)` — no data, distinct from a present empty lump and never an
    /// error; a present slot whose length is not a multiple of `L`'s record
    /// size yields the format error `MisalignedLump`; a present slot whose
    /// byte range reaches past the end of the source yields `UnexpectedEnd`;
    /// otherwise exactly `length / size` records decode, in file order, and
    /// all are returned. No partially decoded sequence is ever returned.
    pub fn read_lump<L: LumpData>(&self) -> (r: Result<Option<Vec<L>>, BspError>)
        requires
            self.wf(),
        ensures
            ({
                let b = self.spec_data();
                let o = self.spec_header().order;
                let e = self.spec_header().lumps@[L::spec_index()];
                let sz = L::spec_size();
                &&& (r == Ok::<Option<Vec<L>>, BspError>(None::<Vec<L>>) <==> lump_absent(e))
                &&& (r == Err::<Option<Vec<L>>, BspError>(BspError::MisalignedLump) <==> (
                !lump_absent(e) && e.length as int % sz != 0))
                &&& (r == Err::<Option<Vec<L>>, BspError>(BspError::UnexpectedEnd) <==> (
                !lump_absent(e) && e.length as int % sz == 0 && e.offset + e.length > b.len()))
                &&& ((!lump_absent(e) && e.length as int % sz == 0 && e.offset + e.length
                    <= b.len()) ==> (r matches Ok(Some(v)) && lump_records_match::<L>(
                    o,
                    b,
                    e.offset as int,
                    e.length as int / sz,
                    v@,
                )))
            }),
    {
        let i = L::get_index();
        let entry = self.header.lumps[i];
        if entry.offset >= 0 && entry.length >= 0 {
            let size = L::size();
            let off: usize = entry.offset as usize;
            let len: usize = entry.length as usize;
            if len % size != 0 {
                return Err(BspError::MisalignedLump);
            }
            if off > self.data.len() || len > self.data.len() - off {
                return Err(BspError::UnexpectedEnd);
            }
            let count: usize = len / size;
            let o = self.header.order;
            proof {
                vstd::arithmetic::div_mod::lemma_fundamental_div_mod(len as int, size as int);
            }
            let mut v: Vec<L> = Vec::new();
            let mut pos: usize = off;
            while v.len() < count
                invariant
                    o == self.spec_header().order,
                    size == L::spec_size(),
                    0 < size,
                    count == len as int / size as int,
                    count * size == len,
                    off + len <= self.data.len(),
                    v@.len() <= count,
                    pos == off + v@.len() * size,
                    self.spec_data() == self.data@,
                    forall|j: int|
                        0 <= j < v@.len() ==> (#[trigger] v@[j]).decodes(
                            o,
                            self.spec_data().subrange(
                                off + j * L::spec_size(),
                                off + (j + 1) * L::spec_size(),
                            ),
                        ),
                decreases count - v@.len(),
            {
                proof {
                    let k = v@.len() as int;
                    vstd::arithmetic::mul::lemma_mul_is_distributive_add_other_way(
                        size as int,
                        k,
                        1,
                    );
                    vstd::arithmetic::mul::lemma_mul_inequality(k + 1, count as int, size as int);
                }
                let elem = L::load(o, &self.data, pos);
                v.push(elem);
                pos = pos + size;
            }
            Ok(Some(v))
        } else {
            Ok(None)
        }
    }
}

/// Decoding a lump is deterministic and order-preserving: any two record
/// sequences decoded from the same byte range of the same file are equal
/// element for element, because each record is pinned by its chunk of bytes.
pub proof fn lemma_lump_decode_deterministic<L: LumpData>(
    o: ByteOrder,
    b: Seq<u8>,
    off: int,
    count: int,
    r1: Seq<L>,
    r2: Seq<L>,
)
    requires
        lump_records_match::<L>(o, b, off, count, r1),
        lump_records_match::<L>(o, b, off, count, r2),
    ensures
        r1 == r2,
{
    assert forall|i: int| 0 <= i < count implies r1[i] == r2[i] by {
        L::decodes_unique(
            r1[i],
            r2[i],
            o,
            b.subrange(off + i * L::spec_size(), off + (i + 1) * L::spec_size()),
        );
    }
    assert(r1 =~= r2);
}

/// Byte-order selection is purely a function of the magic: two files that
/// start with the same four bytes select the same byte order, whatever the
/// rest of their contents.
pub proof fn lemma_order_from_magic_alone(b1: Seq<u8>, b2: Seq<u8>)
    requires
        b1.len() >= 4,
        b2.len() >= 4,
        b1.subrange(0, 4) == b2.subrange(0, 4),
    ensures
        spec_order(b1) == spec_order(b2),
{
    assert forall|i: int| 0 <= i < 4 implies b1[i] == b2[i] by {
        assert(b1.subrange(0, 4)[i] == b1[i]);
        assert(b2.subrange(0, 4)[i] == b2[i]);
    }
}

} // verus!
