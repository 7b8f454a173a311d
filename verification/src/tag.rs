//! Four-character tags packed into 32 bits.
//!
//! Tags name scripts, languages and font features. The packing is
//! big-endian: the first character occupies the most significant byte.

use vstd::prelude::*;
use vstd::string::StrSliceExecFns;

verus! {

/// Compact representation of features, scripts and languages.
#[derive(Debug, Clone, Copy, PartialEq, Eq, Structural)]
pub struct Tag {
    tag: u32,
}

/// The `i`-th packing unit of a string: the code of its `i`-th character,
/// or a space when the string is shorter.
pub open spec fn tag_unit(s: Seq<char>, i: int) -> u32 {
    if i < s.len() {
        s[i] as u32
    } else {
        0x20
    }
}

/// Four units packed big-endian into one 32-bit value.
pub open spec fn pack_tag(u0: u32, u1: u32, u2: u32, u3: u32) -> u32 {
    (u0 << 24) | (u1 << 16) | (u2 << 8) | u3
}

/// The character stored in the byte of `t` selected by `shift`
/// (24 for the first character down to 0 for the fourth).
pub open spec fn unpack_tag_char(t: u32, shift: u32) -> char {
    ((t >> shift) as u8) as char
}

/// The four characters of a packed tag, most significant byte first.
pub open spec fn unpacked_tag(t: u32) -> Seq<char> {
    seq![
        unpack_tag_char(t, 24),
        unpack_tag_char(t, 16),
        unpack_tag_char(t, 8),
        unpack_tag_char(t, 0),
    ]
}

impl View for Tag {
    type V = u32;

    closed spec fn view(&self) -> u32 {
        self.tag
    }
}

impl Tag {
    /// Constructs a tag from a `u32` value.
    pub fn new(value: u32) -> (r: Tag)
        ensures
            r@ == value,
    {
        Tag { tag: value }
    }

    /// Constructs a tag from four character literals.
    ///
    /// Only the low byte of each character is used.
    pub fn from_chars(c1: char, c2: char, c3: char, c4: char) -> (r: Tag)
        ensures
            r@ == pack_tag(
                c1 as u32 & 0xff,
                c2 as u32 & 0xff,
                c3 as u32 & 0xff,
                c4 as u32 & 0xff,
            ),
    {
        Tag::new(
            (c1 as u32 & 0xff) << 24 | (c2 as u32 & 0xff) << 16 | (c3 as u32 & 0xff) << 8 | (
            c4 as u32 & 0xff),
        )
    }

    /// Constructs a tag from a string.
    ///
    /// Valid tags are four characters. Shorter input strings will be
    /// padded with spaces. Longer input strings will be truncated.
    pub fn from_string(s: &str) -> (r: Tag)
        ensures
            r@ == pack_tag(tag_unit(s@, 0), tag_unit(s@, 1), tag_unit(s@, 2), tag_unit(s@, 3)),
    {
        let n = s.unicode_len();
        let u0: u32 = if n > 0 { s.get_char(0) as u32 } else { 0x20 };
        let u1: u32 = if n > 1 { s.get_char(1) as u32 } else { 0x20 };
        let u2: u32 = if n > 2 { s.get_char(2) as u32 } else { 0x20 };
        let u3: u32 = if n > 3 { s.get_char(3) as u32 } else { 0x20 };
        Tag::new((u0 << 24) | (u1 << 16) | (u2 << 8) | u3)
    }

    /// The packed 32-bit value of the tag.
    pub fn to_u32(&self) -> (r: u32)
        ensures
            r == self@,
    {
        self.tag
    }

    /// Converts the tag to a four-character string.
    ///
    /// Each of the four packed bytes becomes one character.
    pub fn as_string(&self) -> (r: String)
        ensures
            r@ == unpacked_tag(self@),
    {
        let mut r = String::new();
        push_char(&mut r, ((self.tag >> 24) as u8) as char);
        push_char(&mut r, ((self.tag >> 16) as u8) as char);
        push_char(&mut r, ((self.tag >> 8) as u8) as char);
        push_char(&mut r, (self.tag as u8) as char);
        proof {
            let t = self.tag;
            assert(t >> 0 == t) by (bit_vector);
            assert(r@ =~= unpacked_tag(self.tag));
        }
        r
    }
}

/// Relies on `String::push`: appends the given character to the end of
/// the string.
#[verifier::external_body]
pub(crate) fn push_char(s: &mut String, c: char)
    ensures
        final(s)@ == old(s)@.push(c),
{
    s.push(c)
}

/// Packing the first four characters of a string and unpacking the result
/// gives the string back, provided it has exactly four characters and each
/// fits in one byte.
pub proof fn lemma_tag_string_round_trip(s: Seq<char>)
    requires
        s.len() == 4,
        forall|i: int| 0 <= i < 4 ==> #[trigger] (s[i] as u32) <= 0xff,
    ensures
        unpacked_tag(pack_tag(tag_unit(s, 0), tag_unit(s, 1), tag_unit(s, 2), tag_unit(s, 3)))
            =~= s,
{
    let u0 = s[0] as u32;
    let u1 = s[1] as u32;
    let u2 = s[2] as u32;
    let u3 = s[3] as u32;
    let t = pack_tag(u0, u1, u2, u3);
    assert(u0 <= 0xff && u1 <= 0xff && u2 <= 0xff && u3 <= 0xff);
    assert((t >> 24) as u8 == u0 && (t >> 16) as u8 == u1 && (t >> 8) as u8 == u2 && (t
        >> 0) as u8 == u3) by (bit_vector)
        requires
            t == ((u0 << 24) | (u1 << 16) | (u2 << 8) | u3),
            u0 <= 0xff,
            u1 <= 0xff,
            u2 <= 0xff,
            u3 <= 0xff,
    ;
    lemma_low_char_cast(u0);
    lemma_low_char_cast(u1);
    lemma_low_char_cast(u2);
    lemma_low_char_cast(u3);
    vstd::utf8::char_u32_cast(s[0], u0);
    vstd::utf8::char_u32_cast(s[1], u1);
    vstd::utf8::char_u32_cast(s[2], u2);
    vstd::utf8::char_u32_cast(s[3], u3);
    assert(unpacked_tag(t)[0] == ((t >> 24) as u8) as char);
    assert((t >> 24) as u8 == u0 as u8);
    assert(unpacked_tag(t)[0] == s[0]);
    assert((t >> 16) as u8 == u1 as u8);
    assert(unpacked_tag(t)[1] == s[1]);
    assert((t >> 8) as u8 == u2 as u8);
    assert(unpacked_tag(t)[2] == s[2]);
    assert((t >> 0) as u8 == u3 as u8);
    assert(unpacked_tag(t)[3] == s[3]);
}

/// A value below 256 cast to `u8` and then to `char` is the same character
/// as the value cast to `char` through `u32`; the `u8` cast keeps the value.
proof fn lemma_low_char_cast(u: u32)
    requires
        u <= 0xff,
    ensures
        (u as u8) as char == u as char,
        u as u8 == u,
{
    assert(u as u8 == u) by (bit_vector)
        requires
            u <= 0xff,
    ;
}

} // verus!
