//! Reading face properties out of font-file bytes.
//!
//! A font file is either a single font — a table directory introduced by a
//! version tag — or a collection that starts with a `ttcf` header listing
//! the offset of one table directory per face. The properties this crate
//! reads are the glyph count, from the `maxp` table, and the units per em,
//! from the `head` table. All reads are bounds-checked; anything missing
//! or malformed yields the documented fallback rather than an error.

use vstd::prelude::*;

verus! {

/// The version tag of a TrueType-flavoured table directory.
pub const SFNT_VERSION_TRUETYPE: u32 = 0x00010000;

/// The version tag of a CFF-flavoured table directory, `OTTO`.
pub const SFNT_VERSION_CFF: u32 = 0x4F54544F;

/// The tag of a font collection header, `ttcf`.
pub const TTC_TAG: u32 = 0x74746366;

/// The tag of the `maxp` table, which carries the glyph count.
pub const TABLE_TAG_MAXP: u32 = 0x6D617870;

/// The tag of the `head` table, which carries the units per em.
pub const TABLE_TAG_HEAD: u32 = 0x68656164;

/// The units per em reported when a face has no usable `head` table.
pub const FALLBACK_UPEM: u32 = 1000;

/// The big-endian 16-bit value at `off`.
pub open spec fn be_u16(d: Seq<u8>, off: int) -> int {
    d[off] * 0x100 + d[off + 1]
}

/// The big-endian 32-bit value at `off`.
pub open spec fn be_u32(d: Seq<u8>, off: int) -> int {
    d[off] * 0x1000000 + d[off + 1] * 0x10000 + d[off + 2] * 0x100 + d[off + 3]
}

/// Whether `v` is the version tag of a table directory.
pub open spec fn is_font_version(v: int) -> bool {
    v == SFNT_VERSION_TRUETYPE || v == SFNT_VERSION_CFF
}

/// How many faces the font-file bytes hold: the declared count of a
/// collection, one for a single font, zero for anything else.
pub open spec fn spec_face_count(d: Seq<u8>) -> int {
    if d.len() < 4 {
        0
    } else if be_u32(d, 0) == TTC_TAG {
        if d.len() >= 12 {
            be_u32(d, 8)
        } else {
            0
        }
    } else if is_font_version(be_u32(d, 0)) {
        1
    } else {
        0
    }
}

/// The offset of the table directory of face `index`, when the bytes hold
/// such a face.
pub open spec fn spec_font_offset(d: Seq<u8>, index: u32) -> Option<int> {
    if d.len() < 4 {
        None
    } else if be_u32(d, 0) == TTC_TAG {
        if index < spec_face_count(d) && 12 + 4 * index + 4 <= d.len() {
            Some(be_u32(d, 12 + 4 * index))
        } else {
            None
        }
    } else if is_font_version(be_u32(d, 0)) && index == 0 {
        Some(0)
    } else {
        None
    }
}

/// The offset of the table tagged `tag` among the `n` sixteen-byte records
/// that start at `recs`.
pub open spec fn spec_find_table(d: Seq<u8>, recs: int, n: int, tag: int) -> Option<int>
    decreases n,
{
    if n <= 0 || recs + 16 > d.len() {
        None
    } else if be_u32(d, recs) == tag {
        Some(be_u32(d, recs + 8))
    } else {
        spec_find_table(d, recs + 16, n - 1, tag)
    }
}

/// The offset of the table tagged `tag` of the table directory at
/// `font_off`.
pub open spec fn spec_table_offset(d: Seq<u8>, font_off: int, tag: int) -> Option<int> {
    if font_off + 12 <= d.len() && is_font_version(be_u32(d, font_off)) {
        spec_find_table(d, font_off + 12, be_u16(d, font_off + 4), tag)
    } else {
        None
    }
}

/// The glyph count of face `index`: the value the `maxp` table of its
/// table directory declares, or zero when the face or the table is
/// missing.
pub open spec fn spec_glyph_count(d: Seq<u8>, index: u32) -> int {
    match spec_font_offset(d, index) {
        Option::None => 0,
        Option::Some(fo) => match spec_table_offset(d, fo, TABLE_TAG_MAXP as int) {
            Option::None => 0,
            Option::Some(to) => if to + 6 <= d.len() {
                be_u16(d, to + 4)
            } else {
                0
            },
        },
    }
}

/// The units per em of face `index`: the value the `head` table of its
/// table directory declares, or the fallback when the face or the table
/// is missing or the declared value is zero.
pub open spec fn spec_upem(d: Seq<u8>, index: u32) -> int {
    match spec_font_offset(d, index) {
        Option::None => FALLBACK_UPEM as int,
        Option::Some(fo) => match spec_table_offset(d, fo, TABLE_TAG_HEAD as int) {
            Option::None => FALLBACK_UPEM as int,
            Option::Some(to) => if to + 20 <= d.len() && be_u16(d, to + 18) != 0 {
                be_u16(d, to + 18)
            } else {
                FALLBACK_UPEM as int
            },
        },
    }
}

/// The big-endian 16-bit value at `off`.
fn read_u16(d: &Vec<u8>, off: usize) -> (r: u32)
    requires
        off + 2 <= d@.len(),
    ensures
        r == be_u16(d@, off as int),
        r <= 0xffff,
{
    let _n = d.len();
    (d[off] as u32) * 0x100 + (d[off + 1] as u32)
}

/// The big-endian 32-bit value at `off`.
fn read_u32(d: &Vec<u8>, off: usize) -> (r: u32)
    requires
        off + 4 <= d@.len(),
    ensures
        r == be_u32(d@, off as int),
{
    let _n = d.len();
    (d[off] as u32) * 0x1000000 + (d[off + 1] as u32) * 0x10000 + (d[off + 2] as u32) * 0x100 + (
    d[off + 3] as u32)
}

/// How many faces the font-file bytes hold.
pub fn face_count(d: &Vec<u8>) -> (r: u32)
    ensures
        r == spec_face_count(d@),
{
    if d.len() < 4 {
        return 0;
    }
    let v = read_u32(d, 0);
    if v == TTC_TAG {
        if d.len() >= 12 {
            read_u32(d, 8)
        } else {
            0
        }
    } else if v == SFNT_VERSION_TRUETYPE || v == SFNT_VERSION_CFF {
        1
    } else {
        0
    }
}

/// The offset of the table directory of face `index`.
fn font_offset(d: &Vec<u8>, index: u32) -> (r: Option<u32>)
    ensures
        match r {
            Option::Some(o) => spec_font_offset(d@, index) == Option::Some(o as int),
            Option::None => spec_font_offset(d@, index) is None,
        },
{
    if d.len() < 4 {
        return Option::None;
    }
    let v = read_u32(d, 0);
    if v == TTC_TAG {
        let count = face_count(d);
        if index < count && 12 + 4 * (index as u64) + 4 <= d.len() as u64 {
            let off: usize = 12 + 4 * (index as usize);
            Option::Some(read_u32(d, off))
        } else {
            Option::None
        }
    } else if (v == SFNT_VERSION_TRUETYPE || v == SFNT_VERSION_CFF) && index == 0 {
        Option::Some(0)
    } else {
        Option::None
    }
}

/// The offset of the table tagged `tag` among the `n` sixteen-byte
/// records that start at `recs`.
fn find_table(d: &Vec<u8>, recs: u64, n: u32, tag: u32) -> (r: Option<u32>)
    requires
        recs <= 0x2_0000_0000,
    ensures
        match r {
            Option::Some(o) => spec_find_table(d@, recs as int, n as int, tag as int)
                == Option::Some(o as int),
            Option::None => spec_find_table(d@, recs as int, n as int, tag as int) is None,
        },
{
    let mut cur: u64 = recs;
    let mut left: u32 = n;
    while left > 0
        invariant
            recs <= 0x2_0000_0000,
            cur == recs + 16 * (n - left),
            left <= n,
            spec_find_table(d@, recs as int, n as int, tag as int) == spec_find_table(
                d@,
                cur as int,
                left as int,
                tag as int,
            ),
        decreases left,
    {
        if cur + 16 > d.len() as u64 {
            return Option::None;
        }
        let off = cur as usize;
        if read_u32(d, off) == tag {
            return Option::Some(read_u32(d, off + 8));
        }
        cur = cur + 16;
        left = left - 1;
    }
    Option::None
}

/// The offset of the table tagged `tag` of the table directory at
/// `font_off`.
fn table_offset(d: &Vec<u8>, font_off: u32, tag: u32) -> (r: Option<u32>)
    ensures
        match r {
            Option::Some(o) => spec_table_offset(d@, font_off as int, tag as int) == Option::Some(
                o as int,
            ),
            Option::None => spec_table_offset(d@, font_off as int, tag as int) is None,
        },
{
    if (font_off as u64) + 12 <= d.len() as u64 {
        let fo = font_off as usize;
        let v = read_u32(d, fo);
        if v == SFNT_VERSION_TRUETYPE || v == SFNT_VERSION_CFF {
            let n = read_u16(d, fo + 4);
            find_table(d, (font_off as u64) + 12, n, tag)
        } else {
            Option::None
        }
    } else {
        Option::None
    }
}

/// The glyph count of face `index` of the font-file bytes.
pub fn glyph_count(d: &Vec<u8>, index: u32) -> (r: u32)
    ensures
        r == spec_glyph_count(d@, index),
        r <= 0xffff,
{
    match font_offset(d, index) {
        Option::None => 0,
        Option::Some(fo) => match table_offset(d, fo, TABLE_TAG_MAXP) {
            Option::None => 0,
            Option::Some(to) => {
                if (to as u64) + 6 <= d.len() as u64 {
                    read_u16(d, (to as usize) + 4)
                } else {
                    0
                }
            },
        },
    }
}

/// The units per em of face `index` of the font-file bytes.
pub fn units_per_em(d: &Vec<u8>, index: u32) -> (r: u32)
    ensures
        r == spec_upem(d@, index),
        1 <= r <= 0xffff,
{
    match font_offset(d, index) {
        Option::None => FALLBACK_UPEM,
        Option::Some(fo) => match table_offset(d, fo, TABLE_TAG_HEAD) {
            Option::None => FALLBACK_UPEM,
            Option::Some(to) => {
                if (to as u64) + 20 <= d.len() as u64 {
                    let v = read_u16(d, (to as usize) + 18);
                    if v != 0 {
                        v
                    } else {
                        FALLBACK_UPEM
                    }
                } else {
                    FALLBACK_UPEM
                }
            },
        },
    }
}

} // verus!
