use harfbuzz::{face_count, Blob, Face, Font};

// A minimal single-font file: an offset table with two table records,
// a 20-byte `head` table whose last two bytes are the units per em, and
// a 6-byte `maxp` table whose last two bytes are the glyph count.
fn single_font(num_glyphs: u16, upem: u16) -> Vec<u8> {
    let mut d = Vec::new();
    // offset table: version 1.0, numTables = 2, binary-search fields
    d.extend_from_slice(&[0x00, 0x01, 0x00, 0x00]);
    d.extend_from_slice(&[0x00, 0x02]);
    d.extend_from_slice(&[0x00, 0x20, 0x00, 0x01, 0x00, 0x00]);
    // table record: 'head' at offset 44, length 20
    d.extend_from_slice(b"head");
    d.extend_from_slice(&[0, 0, 0, 0]);
    d.extend_from_slice(&44u32.to_be_bytes());
    d.extend_from_slice(&20u32.to_be_bytes());
    // table record: 'maxp' at offset 64, length 6
    d.extend_from_slice(b"maxp");
    d.extend_from_slice(&[0, 0, 0, 0]);
    d.extend_from_slice(&64u32.to_be_bytes());
    d.extend_from_slice(&6u32.to_be_bytes());
    // head table: 18 bytes of header, then unitsPerEm
    d.extend_from_slice(&[0u8; 18]);
    d.extend_from_slice(&upem.to_be_bytes());
    // maxp table: version 0.5, then numGlyphs
    d.extend_from_slice(&[0x00, 0x00, 0x50, 0x00]);
    d.extend_from_slice(&num_glyphs.to_be_bytes());
    d
}

// A collection of two fonts: a `ttcf` header whose offset table points at
// two single-font table directories appended after it.
fn two_font_collection(glyphs_a: u16, glyphs_b: u16) -> Vec<u8> {
    let font_a = single_font(glyphs_a, 1000);
    let font_b = single_font(glyphs_b, 2048);
    let header_len = 12 + 4 * 2;
    let off_a = header_len as u32;
    let off_b = (header_len + font_a.len()) as u32;
    let mut d = Vec::new();
    d.extend_from_slice(b"ttcf");
    d.extend_from_slice(&[0x00, 0x01, 0x00, 0x00]);
    d.extend_from_slice(&2u32.to_be_bytes());
    d.extend_from_slice(&off_a.to_be_bytes());
    d.extend_from_slice(&off_b.to_be_bytes());
    // the table records of each appended font hold offsets relative to
    // the whole file, so rebuild them at their final position
    d.extend_from_slice(&rebased(&font_a, off_a));
    d.extend_from_slice(&rebased(&font_b, off_b));
    d
}

// A single font whose two table-record offsets are shifted by `base`.
fn rebased(font: &[u8], base: u32) -> Vec<u8> {
    let mut d = font.to_vec();
    for rec in 0..2 {
        let pos = 12 + 16 * rec + 8;
        let old = u32::from_be_bytes([d[pos], d[pos + 1], d[pos + 2], d[pos + 3]]);
        let new = (old + base).to_be_bytes();
        d[pos..pos + 4].copy_from_slice(&new);
    }
    d
}

#[test]
fn face_glyph_count_matches_the_maxp_table() {
    let blob = Blob::new(single_font(1942, 1000));
    let face = Face::new(blob, 0);
    assert_eq!(face.get_glyph_count(), 1942);
}

#[test]
fn face_upem_matches_the_head_table() {
    let face = Face::new(Blob::new(single_font(10, 2048)), 0);
    assert_eq!(face.get_upem(), 2048);
}

#[test]
fn face_invalid_index_yields_empty_face() {
    let face = Face::new(Blob::new(single_font(1942, 1000)), 1);
    assert_eq!(face.get_glyph_count(), 0);
    assert_eq!(face.get_upem(), 1000);
}

#[test]
fn face_from_garbage_bytes_is_empty() {
    let face = Face::new(Blob::new(vec![1, 2, 3, 4, 5]), 0);
    assert_eq!(face.get_glyph_count(), 0);
    assert_eq!(face.get_upem(), 1000);
}

#[test]
fn face_count_of_files() {
    assert_eq!(face_count(&single_font(5, 1000)), 1);
    assert_eq!(face_count(&two_font_collection(3, 7)), 2);
    assert_eq!(face_count(&vec![0, 0, 0, 0]), 0);
    assert_eq!(face_count(&Vec::new()), 0);
}

#[test]
fn face_collection_indexes_faces() {
    let data = two_font_collection(3, 7);
    let a = Face::new(Blob::new(data.clone()), 0);
    let b = Face::new(Blob::new(data.clone()), 1);
    let c = Face::new(Blob::new(data), 2);
    assert_eq!(a.get_glyph_count(), 3);
    assert_eq!(b.get_glyph_count(), 7);
    assert_eq!(b.get_upem(), 2048);
    assert_eq!(c.get_glyph_count(), 0);
}

#[test]
fn face_index_round_trip() {
    let mut face = Face::new(Blob::new(single_font(5, 1000)), 0);
    assert_eq!(face.get_index(), 0);
    face.set_index(3);
    assert_eq!(face.get_index(), 3);
}

#[test]
fn face_immutable_ignores_mutation() {
    let mut face = Face::new(Blob::new(single_font(5, 1000)), 0);
    assert!(!face.is_immutable());
    face.make_immutable();
    assert!(face.is_immutable());
    face.set_upem(4096);
    face.set_index(9);
    assert_eq!(face.get_upem(), 1000);
    assert_eq!(face.get_index(), 0);
}

#[test]
fn face_set_upem_when_mutable() {
    let mut face = Face::new(Blob::new(single_font(5, 1000)), 0);
    face.set_upem(4096);
    assert_eq!(face.get_upem(), 4096);
}

#[test]
fn blob_owns_its_bytes() {
    let blob = Blob::new(vec![1, 2, 3]);
    assert_eq!(blob.len(), 3);
    assert!(!blob.is_empty());
    assert!(Blob::new(Vec::new()).is_empty());
}

#[test]
fn font_scale_defaults_to_face_upem() {
    let face = Face::new(Blob::new(single_font(5, 2048)), 0);
    let font = Font::new(&face);
    assert_eq!(font.get_scale(), (2048, 2048));
    assert_eq!(font.get_ppem(), (0, 0));
}

#[test]
fn font_scale_round_trip() {
    let face = Face::new(Blob::new(single_font(5, 1000)), 0);
    let mut font = Font::new(&face);
    font.set_scale(640, 480);
    assert_eq!(font.get_scale(), (640, 480));
    font.set_ppem(96, 96);
    assert_eq!(font.get_ppem(), (96, 96));
}

#[test]
fn font_immutable_ignores_mutation() {
    let face = Face::new(Blob::new(single_font(5, 1000)), 0);
    let mut font = Font::new(&face);
    font.make_immutable();
    assert!(font.is_immutable());
    font.set_scale(1, 2);
    font.set_ppem(3, 4);
    assert_eq!(font.get_scale(), (1000, 1000));
    assert_eq!(font.get_ppem(), (0, 0));
}

#[test]
fn blob_into_bytes_returns_the_data() {
    let blob = Blob::new(vec![9, 8, 7]);
    assert_eq!(blob.into_bytes(), vec![9, 8, 7]);
}

#[test]
fn units_per_em_reads_the_head_table() {
    assert_eq!(harfbuzz::units_per_em(&single_font(5, 1024), 0), 1024);
    assert_eq!(harfbuzz::units_per_em(&Vec::new(), 0), 1000);
    assert_eq!(harfbuzz::glyph_count(&single_font(5, 1024), 0), 5);
    assert_eq!(harfbuzz::glyph_count(&Vec::new(), 0), 0);
}
