//! Requested feature application over ranges of a buffer.

use vstd::prelude::*;

verus! {

/// The range end that makes a feature apply to the end of the buffer.
pub const FEATURE_RANGE_END: u32 = 0xffff_ffff;

/// A request to apply a feature: a tag, an on/off or numeric value, and a
/// half-open code point range over which it applies.
#[derive(Debug, Clone, Copy, PartialEq, Eq, Structural)]
pub struct Feature {
    tag: u32,
    value: u32,
    start: u32,
    end: u32,
}

/// Whether the feature applies at code point position `index`.
pub open spec fn feature_covers(f: Feature, index: u32) -> bool {
    f.spec_start() <= index < f.spec_end()
}

/// The value in force at position `index` for features with tag `tag`:
/// of all the features in the list with that tag whose range covers the
/// position, the one latest in the list wins; `None` when no feature
/// with that tag covers the position.
pub open spec fn spec_active_feature(fs: Seq<Feature>, tag: u32, index: u32) -> Option<u32>
    decreases fs.len(),
{
    if fs.len() == 0 {
        None
    } else if fs.last().spec_tag() == tag && feature_covers(fs.last(), index) {
        Some(fs.last().spec_value())
    } else {
        spec_active_feature(fs.drop_last(), tag, index)
    }
}

impl Feature {
    /// Turns the feature on over the whole buffer.
    pub fn enable(tag: u32) -> (r: Feature)
        ensures
            r.spec_tag() == tag,
            r.spec_value() == 1,
            r.spec_start() == 0,
            r.spec_end() == FEATURE_RANGE_END,
    {
        Feature { tag, value: 1, start: 0, end: FEATURE_RANGE_END }
    }

    /// Turns the feature on over the half-open range `[start, end)`.
    pub fn enable_with_range(tag: u32, start: u32, end: u32) -> (r: Feature)
        ensures
            r.spec_tag() == tag,
            r.spec_value() == 1,
            r.spec_start() == start,
            r.spec_end() == end,
    {
        Feature { tag, value: 1, start, end }
    }

    /// Turns the feature off over the whole buffer.
    pub fn disable(tag: u32) -> (r: Feature)
        ensures
            r.spec_tag() == tag,
            r.spec_value() == 0,
            r.spec_start() == 0,
            r.spec_end() == FEATURE_RANGE_END,
    {
        Feature { tag, value: 0, start: 0, end: FEATURE_RANGE_END }
    }

    /// Turns the feature off over the half-open range `[start, end)`.
    pub fn disable_with_range(tag: u32, start: u32, end: u32) -> (r: Feature)
        ensures
            r.spec_tag() == tag,
            r.spec_value() == 0,
            r.spec_start() == start,
            r.spec_end() == end,
    {
        Feature { tag, value: 0, start, end }
    }

    /// The tag of the feature.
    pub closed spec fn spec_tag(&self) -> u32 {
        self.tag
    }

    /// The value of the feature.
    pub closed spec fn spec_value(&self) -> u32 {
        self.value
    }

    /// The start of the range of the feature.
    pub closed spec fn spec_start(&self) -> u32 {
        self.start
    }

    /// The end of the range of the feature.
    pub closed spec fn spec_end(&self) -> u32 {
        self.end
    }

    /// The tag of the feature.
    pub fn tag(&self) -> (r: u32)
        ensures
            r == self.spec_tag(),
    {
        self.tag
    }

    /// Whether the feature is turned on.
    pub fn enabled(&self) -> (r: bool)
        ensures
            r == (self.spec_value() == 1),
    {
        self.value == 1
    }

    /// Whether the feature is turned off.
    pub fn disabled(&self) -> (r: bool)
        ensures
            r == (self.spec_value() == 0),
    {
        self.value == 0
    }

    /// The value of the feature.
    pub fn value(&self) -> (r: u32)
        ensures
            r == self.spec_value(),
    {
        self.value
    }

    /// The start of the range of the feature.
    pub fn start(&self) -> (r: u32)
        ensures
            r == self.spec_start(),
    {
        self.start
    }

    /// The end of the range of the feature.
    pub fn end(&self) -> (r: u32)
        ensures
            r == self.spec_end(),
    {
        self.end
    }
}

/// The value in force at position `index` for features with tag `tag`,
/// resolved with the later-entry-wins rule.
pub fn active_feature_value(features: &[Feature], tag: u32, index: u32) -> (r: Option<u32>)
    ensures
        r == spec_active_feature(features@, tag, index),
{
    let n = features.len();
    let mut k: usize = n;
    proof {
        assert(features@.take(n as int) =~= features@);
    }
    while k > 0
        invariant
            k <= n,
            n == features@.len(),
            spec_active_feature(features@, tag, index) == spec_active_feature(
                features@.take(k as int),
                tag,
                index,
            ),
        decreases k,
    {
        let f = features[k - 1];
        proof {
            assert(features@.take(k as int).last() == features@[k - 1]);
            assert(features@.take(k as int).drop_last() =~= features@.take(k - 1));
        }
        if f.tag == tag && f.start <= index && index < f.end {
            return Some(f.value);
        }
        k -= 1;
    }
    proof {
        assert(features@.take(0) =~= Seq::<Feature>::empty());
    }
    None
}

/// Later entry wins: when the feature at position `i` of the list has the
/// sought tag and covers the position, and no feature after it does, the
/// resolved value is the value of that feature.
pub proof fn lemma_active_feature_later_wins(fs: Seq<Feature>, tag: u32, index: u32, i: int)
    requires
        0 <= i < fs.len(),
        fs[i].spec_tag() == tag,
        feature_covers(fs[i], index),
        forall|j: int|
            i < j < fs.len() ==> !(#[trigger] fs[j].spec_tag() == tag && feature_covers(
                fs[j],
                index,
            )),
    ensures
        spec_active_feature(fs, tag, index) == Some(fs[i].spec_value()),
    decreases fs.len(),
{
    if i == fs.len() - 1 {
    } else {
        assert(fs.drop_last()[i] == fs[i]);
        lemma_active_feature_later_wins(fs.drop_last(), tag, index, i);
    }
}

} // verus!
