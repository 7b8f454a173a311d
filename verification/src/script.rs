//! Script tags and a block-granularity script classifier.
//!
//! A script is named by a four-character tag packed into 32 bits. The
//! classifier below resolves a code point to the script of the Unicode
//! block it lies in, for the scripts this crate recognizes; code points
//! outside those blocks are reported as unknown.

use vstd::prelude::*;
use crate::direction::Direction;

verus! {

/// No script set.
pub const SCRIPT_INVALID: u32 = 0;

/// Characters shared between scripts (punctuation, digits, spaces).
pub const SCRIPT_COMMON: u32 = 0x5A797979;

/// Characters that inherit the script of what precedes them (combining
/// marks).
pub const SCRIPT_INHERITED: u32 = 0x5A696E68;

/// Characters whose script is not recognized.
pub const SCRIPT_UNKNOWN: u32 = 0x5A7A7A7A;

/// The Latin script.
pub const SCRIPT_LATIN: u32 = 0x4C61746E;

/// The Greek script.
pub const SCRIPT_GREEK: u32 = 0x4772656B;

/// The Cyrillic script.
pub const SCRIPT_CYRILLIC: u32 = 0x4379726C;

/// The Hebrew script.
pub const SCRIPT_HEBREW: u32 = 0x48656272;

/// The Arabic script.
pub const SCRIPT_ARABIC: u32 = 0x41726162;

/// The Syriac script.
pub const SCRIPT_SYRIAC: u32 = 0x53797263;

/// The Thaana script.
pub const SCRIPT_THAANA: u32 = 0x54686161;

/// The Devanagari script.
pub const SCRIPT_DEVANAGARI: u32 = 0x44657661;

/// The Han script.
pub const SCRIPT_HAN: u32 = 0x48616E69;

/// The Hiragana script.
pub const SCRIPT_HIRAGANA: u32 = 0x48697261;

/// The Katakana script.
pub const SCRIPT_KATAKANA: u32 = 0x4B616E61;

/// The Hangul script.
pub const SCRIPT_HANGUL: u32 = 0x48616E67;

/// Whether a script carries no information for segment guessing: common,
/// inherited and unknown characters never decide the script of a buffer.
pub open spec fn is_neutral_script(s: u32) -> bool {
    s == SCRIPT_COMMON || s == SCRIPT_INHERITED || s == SCRIPT_UNKNOWN
}

/// The script of the Unicode block that code point `cp` lies in, for the
/// blocks this crate recognizes; unknown outside them.
pub open spec fn spec_script_of(cp: u32) -> u32 {
    if cp < 0x41 {
        SCRIPT_COMMON
    } else if cp <= 0x5a {
        SCRIPT_LATIN
    } else if cp < 0x61 {
        SCRIPT_COMMON
    } else if cp <= 0x7a {
        SCRIPT_LATIN
    } else if cp < 0xc0 {
        if cp == 0xaa || cp == 0xba {
            SCRIPT_LATIN
        } else {
            SCRIPT_COMMON
        }
    } else if cp <= 0x2af {
        if cp == 0xd7 || cp == 0xf7 {
            SCRIPT_COMMON
        } else {
            SCRIPT_LATIN
        }
    } else if cp < 0x300 {
        SCRIPT_COMMON
    } else if cp <= 0x36f {
        SCRIPT_INHERITED
    } else if cp <= 0x3ff {
        SCRIPT_GREEK
    } else if cp <= 0x52f {
        SCRIPT_CYRILLIC
    } else if cp < 0x590 {
        SCRIPT_UNKNOWN
    } else if cp <= 0x5ff {
        SCRIPT_HEBREW
    } else if cp <= 0x6ff {
        SCRIPT_ARABIC
    } else if cp <= 0x74f {
        SCRIPT_SYRIAC
    } else if cp <= 0x77f {
        SCRIPT_ARABIC
    } else if cp <= 0x7bf {
        SCRIPT_THAANA
    } else if cp < 0x900 {
        SCRIPT_UNKNOWN
    } else if cp <= 0x97f {
        SCRIPT_DEVANAGARI
    } else if cp < 0x3040 {
        SCRIPT_UNKNOWN
    } else if cp <= 0x309f {
        SCRIPT_HIRAGANA
    } else if cp <= 0x30ff {
        SCRIPT_KATAKANA
    } else if cp < 0x4e00 {
        SCRIPT_UNKNOWN
    } else if cp <= 0x9fff {
        SCRIPT_HAN
    } else if cp < 0xac00 {
        SCRIPT_UNKNOWN
    } else if cp <= 0xd7af {
        SCRIPT_HANGUL
    } else {
        SCRIPT_UNKNOWN
    }
}

/// The script of the block that code point `cp` lies in.
pub fn script_of(cp: u32) -> (r: u32)
    ensures
        r == spec_script_of(cp),
{
    if cp < 0x41 {
        SCRIPT_COMMON
    } else if cp <= 0x5a {
        SCRIPT_LATIN
    } else if cp < 0x61 {
        SCRIPT_COMMON
    } else if cp <= 0x7a {
        SCRIPT_LATIN
    } else if cp < 0xc0 {
        if cp == 0xaa || cp == 0xba {
            SCRIPT_LATIN
        } else {
            SCRIPT_COMMON
        }
    } else if cp <= 0x2af {
        if cp == 0xd7 || cp == 0xf7 {
            SCRIPT_COMMON
        } else {
            SCRIPT_LATIN
        }
    } else if cp < 0x300 {
        SCRIPT_COMMON
    } else if cp <= 0x36f {
        SCRIPT_INHERITED
    } else if cp <= 0x3ff {
        SCRIPT_GREEK
    } else if cp <= 0x52f {
        SCRIPT_CYRILLIC
    } else if cp < 0x590 {
        SCRIPT_UNKNOWN
    } else if cp <= 0x5ff {
        SCRIPT_HEBREW
    } else if cp <= 0x6ff {
        SCRIPT_ARABIC
    } else if cp <= 0x74f {
        SCRIPT_SYRIAC
    } else if cp <= 0x77f {
        SCRIPT_ARABIC
    } else if cp <= 0x7bf {
        SCRIPT_THAANA
    } else if cp < 0x900 {
        SCRIPT_UNKNOWN
    } else if cp <= 0x97f {
        SCRIPT_DEVANAGARI
    } else if cp < 0x3040 {
        SCRIPT_UNKNOWN
    } else if cp <= 0x309f {
        SCRIPT_HIRAGANA
    } else if cp <= 0x30ff {
        SCRIPT_KATAKANA
    } else if cp < 0x4e00 {
        SCRIPT_UNKNOWN
    } else if cp <= 0x9fff {
        SCRIPT_HAN
    } else if cp < 0xac00 {
        SCRIPT_UNKNOWN
    } else if cp <= 0xd7af {
        SCRIPT_HANGUL
    } else {
        SCRIPT_UNKNOWN
    }
}

/// Whether a script is written horizontally from right to left.
pub open spec fn is_rtl_script(s: u32) -> bool {
    s == SCRIPT_ARABIC || s == SCRIPT_HEBREW || s == SCRIPT_SYRIAC || s == SCRIPT_THAANA
}

/// The natural horizontal flow of a script: right to left for the
/// right-to-left scripts, left to right for every other script.
pub open spec fn spec_script_direction(s: u32) -> Direction {
    if is_rtl_script(s) {
        Direction::RTL
    } else {
        Direction::LTR
    }
}

/// The natural horizontal flow of a script.
pub fn script_horizontal_direction(s: u32) -> (r: Direction)
    ensures
        r == spec_script_direction(s),
{
    if s == SCRIPT_ARABIC || s == SCRIPT_HEBREW || s == SCRIPT_SYRIAC || s == SCRIPT_THAANA {
        Direction::RTL
    } else {
        Direction::LTR
    }
}

} // verus!
