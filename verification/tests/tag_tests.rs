use harfbuzz::Tag;

#[test]
fn tag_round_trip_gsub() {
    let tag = Tag::from_string("GSUB");
    assert_eq!(tag.as_string(), "GSUB");
}

#[test]
fn tag_round_trip_lowercase() {
    let tag = Tag::from_string("liga");
    assert_eq!(tag.as_string(), "liga");
}

#[test]
fn tag_from_string_pads_short_input() {
    let tag = Tag::from_string("ab");
    assert_eq!(tag.as_string(), "ab  ");
    assert_eq!(tag, Tag::from_chars('a', 'b', ' ', ' '));
}

#[test]
fn tag_from_string_truncates_long_input() {
    assert_eq!(Tag::from_string("GSUBX"), Tag::from_string("GSUB"));
}

#[test]
fn tag_from_string_empty_is_all_spaces() {
    assert_eq!(Tag::from_string("").as_string(), "    ");
}

#[test]
fn tag_new_matches_packed_value() {
    assert_eq!(Tag::new(0x47535542).as_string(), "GSUB");
}

#[test]
fn tag_from_chars_packs_big_endian() {
    assert_eq!(Tag::from_chars('G', 'S', 'U', 'B'), Tag::new(0x47535542));
}
