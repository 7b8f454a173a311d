//! A series of Unicode code points together with segment properties.
//!
//! A `Buffer` accumulates input text and carries three orthogonal segment
//! properties — direction, script and language — as well as flags and a
//! cluster-grouping level. Unset properties can be inferred from the
//! content with [`Buffer::guess_segment_properties`].
//!
//! Every code point is stored with a cluster value that records where it
//! came from: for text added as UTF-8 the byte offset of the character in
//! the text's encoding, for code points added one by one or as an array
//! the value or index the caller handed in.

use vstd::prelude::*;
use vstd::string::StrSliceExecFns;
use crate::direction::Direction;
use crate::language::{Language, default_language, spec_default_language};
use crate::script::{
    is_neutral_script, script_of, script_horizontal_direction, spec_script_direction,
    spec_script_of, SCRIPT_INVALID,
};

verus! {

/// Flag applying special handling to the beginning of the text paragraph.
pub const BUFFER_FLAG_BOT: u32 = 1;

/// Flag applying special handling to the end of the text paragraph.
pub const BUFFER_FLAG_EOT: u32 = 2;

/// Flag keeping the glyphs of default-ignorable characters.
pub const BUFFER_FLAG_PRESERVE_DEFAULT_IGNORABLES: u32 = 4;

/// Flag removing default-ignorable characters from the output.
pub const BUFFER_FLAG_REMOVE_DEFAULT_IGNORABLES: u32 = 8;

/// Flag suppressing the dotted circle inserted for broken sequences.
pub const BUFFER_FLAG_DO_NOT_INSERT_DOTTED_CIRCLE: u32 = 16;

/// Flag requesting verification of the shaping result.
pub const BUFFER_FLAG_VERIFY: u32 = 32;

/// Flag requesting that the shaper produce unsafe-to-concat glyph flags.
pub const BUFFER_FLAG_PRODUCE_UNSAFE_TO_CONCAT: u32 = 64;

/// Flag requesting that the shaper produce safe-to-insert-tatweel glyph
/// flags.
pub const BUFFER_FLAG_PRODUCE_SAFE_TO_INSERT_TATWEEL: u32 = 128;

/// Buffer flags: a bitset of the `BUFFER_FLAG` values.
#[derive(Debug, Clone, Copy, PartialEq, Eq, Structural)]
pub struct BufferFlags {
    /// The raw bits of the flag set.
    pub bits: u32,
}

impl BufferFlags {
    /// The empty flag set.
    pub fn empty() -> (r: BufferFlags)
        ensures
            r.bits == 0,
    {
        BufferFlags { bits: 0 }
    }

    /// A flag set from raw bits.
    pub fn new(bits: u32) -> (r: BufferFlags)
        ensures
            r.bits == bits,
    {
        BufferFlags { bits }
    }

    /// Whether every flag of `other` is also set in `self`.
    pub fn contains(&self, other: BufferFlags) -> (r: bool)
        ensures
            r == (self.bits & other.bits == other.bits),
    {
        self.bits & other.bits == other.bits
    }
}

/// How cluster values are grouped by the shaper.
#[derive(Debug, Clone, Copy, PartialEq, Eq, Structural)]
pub enum BufferClusterLevel {
    /// Cluster values grouped by graphemes into monotone order.
    MonotoneGraphemes,
    /// Cluster values grouped into monotone order.
    MonotoneCharacters,
    /// Cluster values are not grouped.
    Characters,
}

/// One element of a buffer: a code point and the cluster it came from.
#[derive(Debug, Clone, Copy, PartialEq, Eq, Structural)]
pub struct BufferItem {
    /// The Unicode code point.
    pub codepoint: u32,
    /// The index of the code point in the text it was added from.
    pub cluster: u32,
}

/// The mathematical state of a buffer.
pub ghost struct BufferView {
    /// The code points added so far, with their clusters.
    pub contents: Seq<BufferItem>,
    /// The text flow direction.
    pub direction: Direction,
    /// The script tag, `SCRIPT_INVALID` when unset.
    pub script: u32,
    /// The language tag bytes, empty when unset.
    pub language: Seq<u8>,
    /// The flag bits.
    pub flags: u32,
    /// The cluster-grouping level.
    pub cluster_level: BufferClusterLevel,
}

/// The state of a freshly created buffer.
pub open spec fn spec_new_buffer() -> BufferView {
    BufferView {
        contents: Seq::empty(),
        direction: Direction::Invalid,
        script: SCRIPT_INVALID,
        language: Seq::empty(),
        flags: 0,
        cluster_level: BufferClusterLevel::MonotoneGraphemes,
    }
}

/// Whether two buffer states carry the same segment properties, flags and
/// cluster level.
pub open spec fn same_props(a: BufferView, b: BufferView) -> bool {
    &&& a.direction == b.direction
    &&& a.script == b.script
    &&& a.language == b.language
    &&& a.flags == b.flags
    &&& a.cluster_level == b.cluster_level
}

/// The byte offset of character `i` of `s` in the UTF-8 encoding of `s`.
pub open spec fn spec_byte_offset(s: Seq<char>, i: int) -> int {
    vstd::utf8::encode_utf8(s.take(i)).len() as int
}

/// The buffer items for the characters of `s` whose whole UTF-8 encoding
/// lies inside the byte range `[from, to)`, each clustered at its byte
/// offset; `base` is the byte offset of the first character of `s` in
/// the full text.
pub open spec fn spec_items_in_byte_range(
    s: Seq<char>,
    base: int,
    from: int,
    to: int,
) -> Seq<BufferItem>
    decreases s.len(),
{
    if s.len() == 0 {
        Seq::empty()
    } else {
        let w = vstd::utf8::encode_scalar(s[0] as u32).len() as int;
        let rest = spec_items_in_byte_range(s.drop_first(), base + w, from, to);
        if from <= base && base + w <= to {
            seq![BufferItem { codepoint: s[0] as u32, cluster: base as u32 }] + rest
        } else {
            rest
        }
    }
}

/// UTF-8 encoding distributes over concatenation of character sequences.
proof fn lemma_encode_utf8_concat(a: Seq<char>, b: Seq<char>)
    ensures
        vstd::utf8::encode_utf8(a + b) == vstd::utf8::encode_utf8(a) + vstd::utf8::encode_utf8(b),
    decreases a.len(),
{
    if a.len() == 0 {
        assert(a + b =~= b);
        assert(vstd::utf8::encode_utf8(a) =~= Seq::<u8>::empty());
        assert(vstd::utf8::encode_utf8(a) + vstd::utf8::encode_utf8(b) =~= vstd::utf8::encode_utf8(
            b,
        ));
    } else {
        assert((a + b)[0] == a[0]);
        assert((a + b).drop_first() =~= a.drop_first() + b);
        lemma_encode_utf8_concat(a.drop_first(), b);
        assert(vstd::utf8::encode_utf8(a + b) =~= vstd::utf8::encode_utf8(a)
            + vstd::utf8::encode_utf8(b));
    }
}

/// Stepping over character `k` advances the byte offset by the length of
/// that character's encoding, which is between one and four bytes.
proof fn lemma_byte_offset_step(s: Seq<char>, k: int)
    requires
        0 <= k < s.len(),
    ensures
        spec_byte_offset(s, k + 1) == spec_byte_offset(s, k) + vstd::utf8::encode_scalar(
            s[k] as u32,
        ).len(),
        1 <= vstd::utf8::encode_scalar(s[k] as u32).len() <= 4,
{
    assert(s.take(k + 1) =~= s.take(k) + seq![s[k]]);
    lemma_encode_utf8_concat(s.take(k), seq![s[k]]);
    let single = seq![s[k]];
    assert(single.len() == 1 && single[0] == s[k]);
    assert(single.drop_first() =~= Seq::<char>::empty());
    assert(vstd::utf8::encode_utf8(Seq::<char>::empty()) =~= Seq::<u8>::empty());
    assert(vstd::utf8::encode_utf8(single) == vstd::utf8::encode_scalar(s[k] as u32)
        + vstd::utf8::encode_utf8(single.drop_first()));
    assert(vstd::utf8::encode_utf8(single) =~= vstd::utf8::encode_scalar(s[k] as u32));
}

/// The number of bytes of the UTF-8 encoding of `c`.
fn utf8_char_len(c: char) -> (r: usize)
    ensures
        r == vstd::utf8::encode_scalar(c as u32).len(),
{
    let u = c as u32;
    proof {
        vstd::utf8::char_is_scalar(c);
    }
    if u < 0x80 {
        1
    } else if u < 0x800 {
        2
    } else if u < 0x10000 {
        3
    } else {
        4
    }
}

/// The script of the first code point whose script is not neutral;
/// `SCRIPT_INVALID` when every code point is neutral.
pub open spec fn first_strong_script(items: Seq<BufferItem>) -> u32
    decreases items.len(),
{
    if items.len() == 0 {
        SCRIPT_INVALID
    } else if !is_neutral_script(spec_script_of(items.first().codepoint)) {
        spec_script_of(items.first().codepoint)
    } else {
        first_strong_script(items.drop_first())
    }
}

/// The segment properties after guessing: each property is inferred only
/// when it is unset, and an already-set property is never overwritten.
pub open spec fn spec_guess(v: BufferView) -> BufferView {
    let script = if v.script == SCRIPT_INVALID {
        first_strong_script(v.contents)
    } else {
        v.script
    };
    let direction = if v.direction == Direction::Invalid {
        spec_script_direction(script)
    } else {
        v.direction
    };
    let language = if v.language.len() == 0 {
        spec_default_language()
    } else {
        v.language
    };
    BufferView { direction, script, language, ..v }
}

/// A series of Unicode code points to be shaped, with segment properties.
#[derive(Debug)]
pub struct Buffer {
    contents: Vec<BufferItem>,
    direction: Direction,
    script: u32,
    language: Language,
    flags: u32,
    cluster_level: BufferClusterLevel,
}

impl View for Buffer {
    type V = BufferView;

    closed spec fn view(&self) -> BufferView {
        BufferView {
            contents: self.contents@,
            direction: self.direction,
            script: self.script,
            language: self.language@,
            flags: self.flags,
            cluster_level: self.cluster_level,
        }
    }
}

impl Buffer {
    /// Create a new, empty buffer.
    pub fn new() -> (r: Self)
        ensures
            r@ == spec_new_buffer(),
    {
        Buffer {
            contents: Vec::new(),
            direction: Direction::Invalid,
            script: SCRIPT_INVALID,
            language: Language::invalid(),
            flags: 0,
            cluster_level: BufferClusterLevel::MonotoneGraphemes,
        }
    }

    /// Create a new buffer holding the given text; the cluster of each
    /// code point is its byte offset in the UTF-8 encoding of `text`.
    pub fn with(text: &str) -> (r: Self)
        ensures
            r@.contents == Seq::new(
                text@.len(),
                |i: int| BufferItem {
                    codepoint: text@[i] as u32,
                    cluster: spec_byte_offset(text@, i) as u32,
                },
            ),
            same_props(r@, spec_new_buffer()),
    {
        let mut b = Buffer::new();
        b.add_str(text);
        proof {
            assert(b@.contents =~= Seq::new(
                text@.len(),
                |i: int| BufferItem {
                    codepoint: text@[i] as u32,
                    cluster: spec_byte_offset(text@, i) as u32,
                },
            ));
        }
        b
    }

    /// Create a new, empty buffer with the specified capacity.
    pub fn with_capacity(capacity: usize) -> (r: Self)
        ensures
            r@ == spec_new_buffer(),
    {
        let mut b = Buffer::new();
        b.reserve(capacity);
        b
    }

    /// Add a single code point to the buffer with an explicit cluster
    /// value.
    pub fn add(&mut self, codepoint: u32, cluster: u32)
        ensures
            final(self)@.contents == old(self)@.contents.push(
                BufferItem { codepoint, cluster },
            ),
            same_props(final(self)@, old(self)@),
    {
        self.contents.push(BufferItem { codepoint, cluster });
    }

    /// Add code points to the buffer; the cluster of each is its index in
    /// `codepoints`.
    pub fn add_utf32(&mut self, codepoints: &[char])
        ensures
            final(self)@.contents == old(self)@.contents + Seq::new(
                codepoints@.len(),
                |i: int| BufferItem { codepoint: codepoints@[i] as u32, cluster: i as u32 },
            ),
            same_props(final(self)@, old(self)@),
    {
        let ghost added = Seq::new(
            codepoints@.len(),
            |i: int| BufferItem { codepoint: codepoints@[i] as u32, cluster: i as u32 },
        );
        let n = codepoints.len();
        let mut k: usize = 0;
        proof {
            assert(self.contents@ =~= old(self)@.contents + added.take(0));
        }
        while k < n
            invariant
                k <= n,
                n == codepoints@.len(),
                added == Seq::new(
                    codepoints@.len(),
                    |i: int| BufferItem { codepoint: codepoints@[i] as u32, cluster: i as u32 },
                ),
                self.contents@ == old(self)@.contents + added.take(k as int),
                same_props(self@, old(self)@),
            decreases n - k,
        {
            self.contents.push(
                BufferItem {
                    codepoint: codepoints[k] as u32,
                    cluster: #[verifier::truncate] (k as u32),
                },
            );
            k += 1;
            proof {
                assert(self.contents@ =~= old(self)@.contents + added.take(k as int));
            }
        }
        proof {
            assert(added.take(n as int) =~= added);
        }
    }

    /// Add `length` code points of `codepoints`, starting at position
    /// `offset`; the cluster of each is its index in `codepoints`.
    pub fn add_utf32_full(&mut self, codepoints: &[char], offset: u32, length: i32)
        requires
            length >= 0,
            offset as int + length as int <= codepoints@.len(),
        ensures
            final(self)@.contents == old(self)@.contents + Seq::new(
                length as nat,
                |i: int| BufferItem {
                    codepoint: codepoints@[offset + i] as u32,
                    cluster: (offset + i) as u32,
                },
            ),
            same_props(final(self)@, old(self)@),
    {
        let ghost added = Seq::new(
            length as nat,
            |i: int| BufferItem {
                codepoint: codepoints@[offset + i] as u32,
                cluster: (offset + i) as u32,
            },
        );
        let n = length as usize;
        let off = offset as usize;
        let m = codepoints.len();
        let mut k: usize = 0;
        proof {
            assert(self.contents@ =~= old(self)@.contents + added.take(0));
        }
        while k < n
            invariant
                k <= n,
                n == length as int,
                off == offset as int,
                m == codepoints@.len(),
                off + n <= m,
                added == Seq::new(
                    length as nat,
                    |i: int| BufferItem {
                        codepoint: codepoints@[offset + i] as u32,
                        cluster: (offset + i) as u32,
                    },
                ),
                self.contents@ == old(self)@.contents + added.take(k as int),
                same_props(self@, old(self)@),
            decreases n - k,
        {
            self.contents.push(
                BufferItem {
                    codepoint: codepoints[off + k] as u32,
                    cluster: #[verifier::truncate] ((off + k) as u32),
                },
            );
            k += 1;
            proof {
                assert(self.contents@ =~= old(self)@.contents + added.take(k as int));
            }
        }
        proof {
            assert(added.take(n as int) =~= added);
        }
    }

    /// Add the characters of a text to the buffer; the cluster of each
    /// code point is its byte offset in the UTF-8 encoding of `text`.
    pub fn add_str(&mut self, text: &str)
        ensures
            final(self)@.contents == old(self)@.contents + Seq::new(
                text@.len(),
                |i: int| BufferItem {
                    codepoint: text@[i] as u32,
                    cluster: spec_byte_offset(text@, i) as u32,
                },
            ),
            same_props(final(self)@, old(self)@),
    {
        let ghost added = Seq::new(
            text@.len(),
            |i: int| BufferItem {
                codepoint: text@[i] as u32,
                cluster: spec_byte_offset(text@, i) as u32,
            },
        );
        let n = text.unicode_len();
        let mut boff: u128 = 0;
        let mut k: usize = 0;
        proof {
            assert(text@.take(0) =~= Seq::<char>::empty());
            assert(self.contents@ =~= old(self)@.contents + added.take(0));
        }
        while k < n
            invariant
                k <= n,
                n == text@.len(),
                boff == spec_byte_offset(text@, k as int),
                boff <= 4 * k,
                added == Seq::new(
                    text@.len(),
                    |i: int| BufferItem {
                        codepoint: text@[i] as u32,
                        cluster: spec_byte_offset(text@, i) as u32,
                    },
                ),
                self.contents@ == old(self)@.contents + added.take(k as int),
                same_props(self@, old(self)@),
            decreases n - k,
        {
            let c = text.get_char(k);
            self.contents.push(
                BufferItem { codepoint: c as u32, cluster: #[verifier::truncate] (boff as u32) },
            );
            let w = utf8_char_len(c);
            proof {
                lemma_byte_offset_step(text@, k as int);
                assert(self.contents@ =~= old(self)@.contents + added.take(k as int + 1));
            }
            boff = boff + (w as u128);
            k += 1;
        }
        proof {
            assert(added.take(n as int) =~= added);
        }
    }

    /// Add the characters of `text` whose UTF-8 encoding lies within the
    /// byte range `[offset, offset + length)`; the cluster of each is its
    /// byte offset in the encoding of `text`. A character whose encoding
    /// crosses a boundary of the range is not added.
    pub fn add_str_full(&mut self, text: &str, offset: u32, length: i32)
        requires
            length >= 0,
            offset as int + length as int <= vstd::utf8::encode_utf8(text@).len(),
        ensures
            final(self)@.contents == old(self)@.contents + spec_items_in_byte_range(
                text@,
                0,
                offset as int,
                offset as int + length as int,
            ),
            same_props(final(self)@, old(self)@),
    {
        let ghost target = spec_items_in_byte_range(
            text@,
            0,
            offset as int,
            offset as int + length as int,
        );
        let n = text.unicode_len();
        let from: u128 = offset as u128;
        let to: u128 = from + (length as u128);
        let mut boff: u128 = 0;
        let mut k: usize = 0;
        let ghost mut pushed: Seq<BufferItem> = Seq::empty();
        proof {
            assert(text@.skip(0) =~= text@);
            assert(text@.take(0) =~= Seq::<char>::empty());
            assert(self.contents@ =~= old(self)@.contents + pushed);
            assert(pushed + target =~= target);
        }
        while k < n
            invariant
                k <= n,
                n == text@.len(),
                from == offset as int,
                to == offset as int + length as int,
                boff == spec_byte_offset(text@, k as int),
                boff <= 4 * k,
                target == spec_items_in_byte_range(
                    text@,
                    0,
                    offset as int,
                    offset as int + length as int,
                ),
                target == pushed + spec_items_in_byte_range(
                    text@.skip(k as int),
                    boff as int,
                    from as int,
                    to as int,
                ),
                self.contents@ == old(self)@.contents + pushed,
                same_props(self@, old(self)@),
            decreases n - k,
        {
            let c = text.get_char(k);
            let w = utf8_char_len(c);
            proof {
                lemma_byte_offset_step(text@, k as int);
                assert(text@.skip(k as int)[0] == text@[k as int]);
                assert(text@.skip(k as int).drop_first() =~= text@.skip(k as int + 1));
            }
            if from <= boff && boff + (w as u128) <= to {
                self.contents.push(
                    BufferItem {
                        codepoint: c as u32,
                        cluster: #[verifier::truncate] (boff as u32),
                    },
                );
                proof {
                    let item = BufferItem { codepoint: c as u32, cluster: boff as u32 };
                    let rest = spec_items_in_byte_range(
                        text@.skip(k as int + 1),
                        boff as int + w as int,
                        from as int,
                        to as int,
                    );
                    assert(spec_items_in_byte_range(
                        text@.skip(k as int),
                        boff as int,
                        from as int,
                        to as int,
                    ) == seq![item] + rest);
                    assert(pushed + (seq![item] + rest) =~= pushed.push(item) + rest);
                    pushed = pushed.push(item);
                }
            }
            boff = boff + (w as u128);
            k += 1;
        }
        proof {
            assert(text@.skip(n as int) =~= Seq::<char>::empty());
            assert(target =~= pushed);
        }
    }

    /// Append the code points `[start, end)` of another buffer to this
    /// one; the other buffer is not consumed.
    pub fn append(&mut self, other: &Buffer, start: usize, end: usize)
        requires
            start <= end <= other@.contents.len(),
        ensures
            final(self)@.contents == old(self)@.contents + other@.contents.subrange(
                start as int,
                end as int,
            ),
            same_props(final(self)@, old(self)@),
    {
        let mut k: usize = start;
        proof {
            assert(self.contents@ =~= old(self)@.contents + other@.contents.subrange(
                start as int,
                start as int,
            ));
        }
        while k < end
            invariant
                start <= k <= end <= other@.contents.len(),
                self.contents@ == old(self)@.contents + other@.contents.subrange(
                    start as int,
                    k as int,
                ),
                same_props(self@, old(self)@),
            decreases end - k,
        {
            self.contents.push(other.contents[k]);
            k += 1;
            proof {
                assert(self.contents@ =~= old(self)@.contents + other@.contents.subrange(
                    start as int,
                    k as int,
                ));
            }
        }
    }

    /// Throw away the code points stored in the buffer, but keep the
    /// segment properties, flags and cluster level.
    pub fn clear_contents(&mut self)
        ensures
            final(self)@.contents == Seq::<BufferItem>::empty(),
            same_props(final(self)@, old(self)@),
    {
        self.contents = Vec::new();
    }

    /// Throw away everything: contents, segment properties, flags and
    /// cluster level all return to the newly-created state.
    pub fn reset(&mut self)
        ensures
            final(self)@ == spec_new_buffer(),
    {
        self.contents = Vec::new();
        self.direction = Direction::Invalid;
        self.script = SCRIPT_INVALID;
        self.language = Language::invalid();
        self.flags = 0;
        self.cluster_level = BufferClusterLevel::MonotoneGraphemes;
    }

    /// Pre-allocate space for at least `size` items. Returns `true` when
    /// the allocation succeeded; in this implementation a failed
    /// allocation aborts instead, so the call always reports success.
    pub fn reserve(&mut self, size: usize) -> (r: bool)
        ensures
            r == true,
            final(self)@ == old(self)@,
    {
        self.contents.reserve(size);
        true
    }

    /// The number of code points in the buffer.
    pub fn len(&self) -> (r: usize)
        ensures
            r == self@.contents.len(),
    {
        self.contents.len()
    }

    /// Whether the buffer contains no code points.
    pub fn is_empty(&self) -> (r: bool)
        ensures
            r == (self@.contents.len() == 0),
    {
        self.contents.len() == 0
    }

    /// Set unset segment properties from the buffer contents: an unset
    /// script becomes the script of the first code point whose script is
    /// not common, inherited or unknown; an unset direction becomes the
    /// natural horizontal direction of the resolved script; an unset
    /// language becomes the default language. Set properties are never
    /// overwritten, and calling this twice is the same as calling it
    /// once.
    pub fn guess_segment_properties(&mut self)
        ensures
            final(self)@ == spec_guess(old(self)@),
    {
        if self.script == SCRIPT_INVALID {
            self.script = first_strong(&self.contents);
        }
        if matches!(self.direction, Direction::Invalid) {
            self.direction = script_horizontal_direction(self.script);
        }
        if !self.language.is_valid() {
            self.language = default_language();
        }
    }

    /// The buffer item at position `i`.
    pub(crate) fn item(&self, i: usize) -> (r: BufferItem)
        requires
            i < self@.contents.len(),
        ensures
            r == self@.contents[i as int],
    {
        self.contents[i]
    }

    /// An empty buffer carrying the given properties.
    pub(crate) fn with_props(
        direction: Direction,
        script: u32,
        language: Language,
        flags: u32,
        cluster_level: BufferClusterLevel,
    ) -> (r: Buffer)
        ensures
            r@ == (BufferView {
                contents: Seq::empty(),
                direction,
                script,
                language: language@,
                flags,
                cluster_level,
            }),
    {
        Buffer { contents: Vec::new(), direction, script, language, flags, cluster_level }
    }

    /// Set the text flow direction of the buffer.
    pub fn set_direction(&mut self, direction: Direction)
        ensures
            final(self)@ == (BufferView { direction, ..old(self)@ }),
    {
        self.direction = direction;
    }

    /// The text flow direction of the buffer.
    pub fn get_direction(&self) -> (r: Direction)
        ensures
            r == self@.direction,
    {
        self.direction
    }

    /// Set the script of the buffer.
    pub fn set_script(&mut self, script: u32)
        ensures
            final(self)@ == (BufferView { script, ..old(self)@ }),
    {
        self.script = script;
    }

    /// The script of the buffer.
    pub fn get_script(&self) -> (r: u32)
        ensures
            r == self@.script,
    {
        self.script
    }

    /// Set the language of the buffer.
    pub fn set_language(&mut self, language: Language)
        ensures
            final(self)@ == (BufferView { language: language@, ..old(self)@ }),
    {
        self.language = language;
    }

    /// The language of the buffer.
    pub fn get_language(&self) -> (r: &Language)
        ensures
            r@ == self@.language,
    {
        &self.language
    }

    /// Set the buffer flags.
    pub fn set_flags(&mut self, flags: BufferFlags)
        ensures
            final(self)@ == (BufferView { flags: flags.bits, ..old(self)@ }),
    {
        self.flags = flags.bits;
    }

    /// The buffer flags.
    pub fn get_flags(&self) -> (r: BufferFlags)
        ensures
            r.bits == self@.flags,
    {
        BufferFlags { bits: self.flags }
    }

    /// Set the cluster-grouping level.
    pub fn set_cluster_level(&mut self, level: BufferClusterLevel)
        ensures
            final(self)@ == (BufferView { cluster_level: level, ..old(self)@ }),
    {
        self.cluster_level = level;
    }

    /// The cluster-grouping level.
    pub fn get_cluster_level(&self) -> (r: BufferClusterLevel)
        ensures
            r == self@.cluster_level,
    {
        self.cluster_level
    }
}

/// The script of the first code point of `items` whose script is not
/// neutral; `SCRIPT_INVALID` when every code point is neutral.
fn first_strong(items: &Vec<BufferItem>) -> (r: u32)
    ensures
        r == first_strong_script(items@),
{
    let n = items.len();
    let mut k: usize = 0;
    proof {
        assert(items@.skip(0) =~= items@);
    }
    while k < n
        invariant
            k <= n,
            n == items@.len(),
            first_strong_script(items@) == first_strong_script(items@.skip(k as int)),
        decreases n - k,
    {
        let s = script_of(items[k].codepoint);
        proof {
            assert(items@.skip(k as int).first() == items@[k as int]);
            assert(items@.skip(k as int).drop_first() =~= items@.skip(k as int + 1));
        }
        if !(s == crate::script::SCRIPT_COMMON || s == crate::script::SCRIPT_INHERITED || s
            == crate::script::SCRIPT_UNKNOWN) {
            return s;
        }
        k += 1;
    }
    proof {
        assert(items@.skip(n as int) =~= Seq::<BufferItem>::empty());
    }
    SCRIPT_INVALID
}

impl Default for Buffer {
    /// Create a new, empty buffer.
    fn default() -> (r: Self)
        ensures
            r@ == spec_new_buffer(),
    {
        Buffer::new()
    }
}

/// Guessing the segment properties is idempotent: a second guess on the
/// result of a first one changes nothing.
pub proof fn lemma_guess_idempotent(v: BufferView)
    ensures
        spec_guess(spec_guess(v)) == spec_guess(v),
{
}

/// Appending the full range of a second buffer — what
/// [`Buffer::append`] leaves behind when called with `start` zero and
/// `end` the other buffer's length — extends the first buffer by exactly
/// the length of the second.
pub proof fn lemma_append_full_range_len(pre: BufferView, other: BufferView, post: BufferView)
    requires
        post.contents == pre.contents + other.contents.subrange(0, other.contents.len() as int),
    ensures
        post.contents.len() == pre.contents.len() + other.contents.len(),
{
    assert(other.contents.subrange(0, other.contents.len() as int) =~= other.contents);
}

} // verus!
