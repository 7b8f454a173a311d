use harfbuzz::{
    default_language, Buffer, BufferClusterLevel, BufferFlags, Direction, Language,
    BUFFER_FLAG_BOT, BUFFER_FLAG_EOT, SCRIPT_ARABIC, SCRIPT_GREEK, SCRIPT_INVALID, SCRIPT_LATIN,
};

#[test]
fn buffer_new_is_empty_with_unset_properties() {
    let b = Buffer::new();
    assert!(b.is_empty());
    assert_eq!(b.len(), 0);
    assert_eq!(b.get_direction(), Direction::Invalid);
    assert_eq!(b.get_script(), SCRIPT_INVALID);
    assert!(!b.get_language().is_valid());
    assert_eq!(b.get_flags().bits, 0);
    assert_eq!(b.get_cluster_level(), BufferClusterLevel::MonotoneGraphemes);
}

#[test]
fn buffer_with_holds_the_text() {
    let b = Buffer::with("Hello World");
    assert!(!b.is_empty());
    assert_eq!(b.len(), 11);
}

#[test]
fn buffer_with_capacity_is_empty() {
    let b = Buffer::with_capacity(64);
    assert!(b.is_empty());
}

#[test]
fn buffer_add_single_codepoint() {
    let mut b = Buffer::new();
    b.add('a' as u32, 7);
    assert_eq!(b.len(), 1);
}

#[test]
fn buffer_add_str_counts_characters() {
    let mut b = Buffer::new();
    b.add_str("héllo");
    assert_eq!(b.len(), 5);
}

#[test]
fn buffer_add_str_full_takes_subrange() {
    let mut b = Buffer::new();
    b.add_str_full("abcdef", 1, 3);
    assert_eq!(b.len(), 3);
}

#[test]
fn buffer_add_utf32_counts_codepoints() {
    let mut b = Buffer::new();
    b.add_utf32(&['a', 'b', 'c']);
    assert_eq!(b.len(), 3);
}

#[test]
fn buffer_add_utf32_full_takes_subrange() {
    let mut b = Buffer::new();
    b.add_utf32_full(&['a', 'b', 'c', 'd'], 2, 2);
    assert_eq!(b.len(), 2);
}

#[test]
fn buffer_append_full_range_adds_lengths() {
    let mut b1 = Buffer::with("butter");
    let b2 = Buffer::with("fly");
    let before = b1.len();
    b1.append(&b2, 0, b2.len());
    assert_eq!(b1.len(), before + b2.len());
    assert_eq!(b1.len(), "butterfly".len());
    assert_eq!(b2.len(), 3);
}

#[test]
fn buffer_append_partial_range() {
    let mut b1 = Buffer::with("butter");
    let b2 = Buffer::with("fly");
    b1.append(&b2, 0, 2);
    assert_eq!(b1.len(), 8);
}

#[test]
fn buffer_clear_contents_keeps_properties() {
    let mut b = Buffer::with("text");
    b.set_direction(Direction::RTL);
    b.set_script(SCRIPT_ARABIC);
    b.set_language(Language::from_string("ar"));
    b.set_flags(BufferFlags::new(BUFFER_FLAG_BOT | BUFFER_FLAG_EOT));
    b.set_cluster_level(BufferClusterLevel::Characters);
    b.clear_contents();
    assert_eq!(b.len(), 0);
    assert_eq!(b.get_direction(), Direction::RTL);
    assert_eq!(b.get_script(), SCRIPT_ARABIC);
    assert_eq!(b.get_language().bytes().as_slice(), b"ar".as_slice());
    assert_eq!(b.get_flags().bits, BUFFER_FLAG_BOT | BUFFER_FLAG_EOT);
    assert_eq!(b.get_cluster_level(), BufferClusterLevel::Characters);
}

#[test]
fn buffer_reset_clears_everything() {
    let mut b = Buffer::with("text");
    b.set_direction(Direction::RTL);
    b.set_script(SCRIPT_ARABIC);
    b.set_language(Language::from_string("ar"));
    b.set_flags(BufferFlags::new(BUFFER_FLAG_BOT));
    b.reset();
    assert_eq!(b.len(), 0);
    assert_eq!(b.get_direction(), Direction::Invalid);
    assert_eq!(b.get_script(), SCRIPT_INVALID);
    assert!(!b.get_language().is_valid());
    assert_eq!(b.get_flags().bits, 0);
}

#[test]
fn buffer_reserve_reports_success() {
    let mut b = Buffer::new();
    assert!(b.reserve(128));
    assert!(b.is_empty());
}

#[test]
fn guess_latin_text_sets_ltr_and_latin() {
    let mut b = Buffer::with("Hello, world!");
    b.guess_segment_properties();
    assert_eq!(b.get_direction(), Direction::LTR);
    assert_eq!(b.get_script(), SCRIPT_LATIN);
}

#[test]
fn guess_arabic_text_sets_rtl() {
    let mut b = Buffer::with("مساء الخير");
    b.guess_segment_properties();
    assert_eq!(b.get_direction(), Direction::RTL);
    assert_eq!(b.get_script(), SCRIPT_ARABIC);
}

#[test]
fn guess_is_idempotent() {
    let mut b = Buffer::with("Hello, world!");
    b.guess_segment_properties();
    let direction = b.get_direction();
    let script = b.get_script();
    let language = b.get_language().bytes().clone();
    b.guess_segment_properties();
    assert_eq!(b.get_direction(), direction);
    assert_eq!(b.get_script(), script);
    assert_eq!(b.get_language().bytes(), &language);
}

#[test]
fn guess_is_idempotent_on_neutral_text() {
    let mut b = Buffer::with("123 456");
    b.guess_segment_properties();
    let direction = b.get_direction();
    let script = b.get_script();
    b.guess_segment_properties();
    assert_eq!(b.get_direction(), direction);
    assert_eq!(b.get_script(), script);
}

#[test]
fn guess_never_overwrites_set_properties() {
    let mut b = Buffer::with("Hello");
    b.set_script(SCRIPT_GREEK);
    b.set_direction(Direction::TTB);
    let lang = Language::from_string("el");
    b.set_language(lang);
    b.guess_segment_properties();
    assert_eq!(b.get_script(), SCRIPT_GREEK);
    assert_eq!(b.get_direction(), Direction::TTB);
    assert_eq!(b.get_language().bytes().as_slice(), b"el".as_slice());
}

#[test]
fn guess_skips_leading_common_characters() {
    let mut b = Buffer::with("123 \u{5e9}");
    b.guess_segment_properties();
    assert_eq!(b.get_script(), harfbuzz::SCRIPT_HEBREW);
    assert_eq!(b.get_direction(), Direction::RTL);
}

#[test]
fn guess_neutral_text_defaults_to_ltr() {
    let mut b = Buffer::with("12,3!");
    b.guess_segment_properties();
    assert_eq!(b.get_script(), SCRIPT_INVALID);
    assert_eq!(b.get_direction(), Direction::LTR);
}

#[test]
fn guess_adopts_default_language() {
    let mut b = Buffer::with("abc");
    b.guess_segment_properties();
    assert!(b.get_language().is_valid());
    assert_eq!(b.get_language().bytes(), default_language().bytes());
}

#[test]
fn buffer_flags_round_trip() {
    let mut b = Buffer::new();
    b.set_flags(BufferFlags::new(BUFFER_FLAG_EOT));
    assert_eq!(b.get_flags().bits, BUFFER_FLAG_EOT);
    assert!(b.get_flags().contains(BufferFlags::new(BUFFER_FLAG_EOT)));
    assert!(!b.get_flags().contains(BufferFlags::new(BUFFER_FLAG_BOT)));
}

#[test]
fn buffer_cluster_level_round_trip() {
    let mut b = Buffer::new();
    b.set_cluster_level(BufferClusterLevel::MonotoneCharacters);
    assert_eq!(b.get_cluster_level(), BufferClusterLevel::MonotoneCharacters);
}

#[test]
fn language_from_string_folds_case() {
    let lang = Language::from_string("EN-us");
    assert_eq!(lang.bytes().as_slice(), b"en-us".as_slice());
    assert!(lang.is_valid());
}

#[test]
fn language_invalid_is_not_valid() {
    assert!(!Language::invalid().is_valid());
}

#[test]
fn direction_predicates() {
    assert!(Direction::LTR.is_horizontal());
    assert!(Direction::RTL.is_horizontal());
    assert!(Direction::TTB.is_vertical());
    assert!(Direction::LTR.is_forward());
    assert!(Direction::RTL.is_backward());
    assert!(Direction::BTT.is_backward());
    assert!(!Direction::Invalid.is_horizontal());
}

#[test]
fn script_of_classifies_codepoints() {
    assert_eq!(harfbuzz::script_of('a' as u32), SCRIPT_LATIN);
    assert_eq!(harfbuzz::script_of('Z' as u32), SCRIPT_LATIN);
    assert_eq!(harfbuzz::script_of('!' as u32), harfbuzz::SCRIPT_COMMON);
    assert_eq!(harfbuzz::script_of(0x627), SCRIPT_ARABIC);
    assert_eq!(harfbuzz::script_of(0x3b1), SCRIPT_GREEK);
    assert_eq!(harfbuzz::script_of(0x430), harfbuzz::SCRIPT_CYRILLIC);
    assert_eq!(harfbuzz::script_of(0x5d0), harfbuzz::SCRIPT_HEBREW);
}

#[test]
fn script_direction_is_rtl_for_rtl_scripts() {
    assert_eq!(harfbuzz::script_horizontal_direction(SCRIPT_ARABIC), Direction::RTL);
    assert_eq!(harfbuzz::script_horizontal_direction(harfbuzz::SCRIPT_HEBREW), Direction::RTL);
    assert_eq!(harfbuzz::script_horizontal_direction(SCRIPT_LATIN), Direction::LTR);
    assert_eq!(harfbuzz::script_horizontal_direction(SCRIPT_INVALID), Direction::LTR);
}

#[test]
fn buffer_default_matches_new() {
    let b = Buffer::default();
    assert!(b.is_empty());
    assert_eq!(b.get_direction(), Direction::Invalid);
    assert_eq!(b.get_script(), SCRIPT_INVALID);
}

#[test]
fn buffer_flags_empty_has_no_bits() {
    assert_eq!(BufferFlags::empty().bits, 0);
    assert!(BufferFlags::new(BUFFER_FLAG_BOT).contains(BufferFlags::empty()));
}

#[test]
fn buffer_add_str_full_counts_bytes() {
    // the first character needs two bytes, so the two-byte range [0, 2)
    // holds exactly one character
    let mut b = Buffer::new();
    b.add_str_full("éa", 0, 2);
    assert_eq!(b.len(), 1);
}

#[test]
fn buffer_add_str_full_multibyte_range() {
    // bytes of "héllo": h at 0, é at 1..3, l at 3, l at 4, o at 5
    let mut b = Buffer::new();
    b.add_str_full("héllo", 1, 2);
    assert_eq!(b.len(), 1);
    let mut c = Buffer::new();
    c.add_str_full("héllo", 0, 6);
    assert_eq!(c.len(), 5);
}

#[test]
fn buffer_add_str_full_skips_split_characters() {
    // the byte range [2, 4) cuts é in half: only the l at byte 3 fits
    let mut b = Buffer::new();
    b.add_str_full("héllo", 2, 2);
    assert_eq!(b.len(), 1);
}

#[test]
fn buffer_flag_values_are_distinct_bits() {
    assert_eq!(BUFFER_FLAG_BOT, 1);
    assert_eq!(BUFFER_FLAG_EOT, 2);
    assert_eq!(harfbuzz::BUFFER_FLAG_PRESERVE_DEFAULT_IGNORABLES, 4);
    assert_eq!(harfbuzz::BUFFER_FLAG_REMOVE_DEFAULT_IGNORABLES, 8);
    assert_eq!(harfbuzz::BUFFER_FLAG_DO_NOT_INSERT_DOTTED_CIRCLE, 16);
    assert_eq!(harfbuzz::BUFFER_FLAG_VERIFY, 32);
    assert_eq!(harfbuzz::BUFFER_FLAG_PRODUCE_UNSAFE_TO_CONCAT, 64);
    assert_eq!(harfbuzz::BUFFER_FLAG_PRODUCE_SAFE_TO_INSERT_TATWEEL, 128);
}
