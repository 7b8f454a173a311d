//! Locale tags naming the language of a piece of text.

use vstd::prelude::*;
use vstd::string::StrSliceExecFns;
use vstd::string::StringSliceAdditionalSpecFns;

verus! {

/// A lowercased byte `b`: ASCII capital letters are folded to their small
/// counterparts, every other byte is kept.
pub open spec fn lower_byte(b: u8) -> u8 {
    if 0x41 <= b <= 0x5a {
        (b + 0x20) as u8
    } else {
        b
    }
}

/// A language tag in canonical (lowercased) form; an empty tag is the
/// invalid language.
#[derive(Debug)]
pub struct Language {
    tag: Vec<u8>,
}

impl Clone for Language {
    /// The clone carries the same tag bytes.
    fn clone(&self) -> (r: Self)
        ensures
            r@ == self@,
    {
        Language { tag: vstd::slice::slice_to_vec(self.tag.as_slice()) }
    }
}

impl View for Language {
    type V = Seq<u8>;

    closed spec fn view(&self) -> Seq<u8> {
        self.tag@
    }
}

impl Language {
    /// The invalid language: no language is set.
    pub fn invalid() -> (r: Language)
        ensures
            r@ == Seq::<u8>::empty(),
    {
        Language { tag: Vec::new() }
    }

    /// Builds a language from the UTF-8 bytes of a locale string, folding
    /// ASCII capital letters to lower case.
    pub fn from_string(s: &str) -> (r: Language)
        ensures
            r@ == Seq::new(
                vstd::utf8::encode_utf8(s@).len(),
                |i: int| lower_byte(vstd::utf8::encode_utf8(s@)[i]),
            ),
    {
        let bytes = s.as_bytes_vec();
        let mut tag: Vec<u8> = Vec::new();
        let n = bytes.len();
        let mut k: usize = 0;
        while k < n
            invariant
                n == bytes@.len(),
                k <= n,
                tag@ == Seq::new(k as nat, |i: int| lower_byte(bytes@[i])),
            decreases n - k,
        {
            let b = bytes[k];
            if 0x41 <= b && b <= 0x5a {
                tag.push(b + 0x20);
            } else {
                tag.push(b);
            }
            k += 1;
            proof {
                assert(tag@ =~= Seq::new(k as nat, |i: int| lower_byte(bytes@[i])));
            }
        }
        Language { tag }
    }

    /// Whether a language is set.
    pub fn is_valid(&self) -> (r: bool)
        ensures
            r == (self@.len() != 0),
    {
        self.tag.len() != 0
    }

    /// The canonical bytes of the tag; empty for the invalid language.
    pub fn bytes(&self) -> (r: &Vec<u8>)
        ensures
            r@ == self@,
    {
        &self.tag
    }
}

/// The tag bytes of the default language, `en`.
pub open spec fn spec_default_language() -> Seq<u8> {
    seq![0x65u8, 0x6eu8]
}

/// The default language, adopted by buffers whose language was never
/// set; this crate uses a fixed default rather than consulting the
/// environment.
pub fn default_language() -> (r: Language)
    ensures
        r@ == spec_default_language(),
{
    let r = Language::from_string("en");
    proof {
        broadcast use vstd::string::is_ascii_spec_bytes;

        reveal_strlit("en");
        let s = "en"@;
        assert(vstd::utf8::is_ascii_chars(s)) by {
            assert(s[0] == 'e' && s[1] == 'n');
            assert(forall|i: int| 0 <= i < s.len() ==> '\0' <= #[trigger] s[i] <= '\u{7f}');
        }
        assert(vstd::string::is_ascii("en"));
        assert(("en").spec_bytes() =~= Seq::new(s.len(), |i: int| s[i] as u8));
        assert(s[0] as u8 == 0x65 && s[1] as u8 == 0x6e);
        assert(("en").spec_bytes() =~= seq![0x65u8, 0x6eu8]);
        assert(r@ =~= spec_default_language());
    }
    r
}

} // verus!
