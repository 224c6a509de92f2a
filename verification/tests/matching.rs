use phonique::track::{parse_track, Track};

fn track(name: &str, artists: &[&str], remix: &[&str], catno: &str, position: &str) -> Track {
    Track {
        name: name.to_string(),
        artists: artists.iter().map(|s| s.to_string()).collect(),
        remix: remix.iter().map(|s| s.to_string()).collect(),
        catno: catno.to_string(),
        position: position.to_string(),
    }
}

#[test]
fn unstructured_title_becomes_the_name() {
    let t = parse_track("Some Plain Words");
    assert_eq!(t.name, "Some Plain Words");
    assert!(t.artists.is_empty());
    assert!(t.remix.is_empty());
    assert_eq!(t.catno, "");
    assert_eq!(t.position, "");
}

#[test]
fn empty_title_yields_empty_record() {
    let t = parse_track("");
    assert_eq!(t.name, "");
    assert!(t.artists.is_empty());
    assert!(t.remix.is_empty());
    assert_eq!(t.catno, "");
    assert_eq!(t.position, "");
}

#[test]
fn remix_annotation_names_the_remixer() {
    let t = parse_track("Artist - Title (Someone Remix)");
    assert_eq!(t.remix, vec!["Someone"]);
    let original = parse_track("Artist - Title (Original Mix)");
    assert!(original.remix.is_empty());
}

#[test]
fn track_side_with_colon_and_dot() {
    let with_colon = parse_track("A1: Artist - Title");
    assert_eq!(with_colon.position, "A1");
    let with_dot = parse_track("A1. Artist - Title");
    assert_eq!(with_dot.position, "A1");
}

#[test]
fn bracket_group_is_the_catalog_number() {
    let t = parse_track("Artist - Title [CAT001]");
    assert_eq!(t.catno, "CAT001");
}

#[test]
fn ampersand_and_comma_both_split_artists() {
    let mut a = parse_track("ArtistA & ArtistB - Title");
    let mut b = parse_track("ArtistA, ArtistB - Title");
    a.artists.sort();
    b.artists.sort();
    assert_eq!(a.artists, ["ArtistA", "ArtistB"]);
    assert_eq!(b.artists, ["ArtistA", "ArtistB"]);
}

#[test]
fn two_remixers_in_one_group() {
    let mut t = parse_track("Artist - Title (RemixerA & RemixerB Remix)");
    t.remix.sort();
    assert_eq!(t.remix, ["RemixerA", "RemixerB"]);
}

#[test]
fn non_ascii_characters_are_deleted() {
    let t = parse_track("Martinez V\u{00f6}lcan - L\u{00e1}va");
    assert_eq!(t.artists, vec!["Martinez Vlcan"]);
    assert_eq!(t.name, "Lva");
}

#[test]
fn matching_ignores_artist_order_and_case() {
    let a = track("Title", &["ArtistA", "ArtistB"], &["RemixerC"], "C1", "A1");
    let b = track("TITLE", &["artistb", "ARTISTA"], &["remixerc"], "", "");
    assert!(a == b);
    assert!(b == a);
}

#[test]
fn matching_ignores_catno_and_position() {
    let a = track("Title", &["Artist"], &[], "CAT1", "A1");
    let b = track("Title", &["Artist"], &[], "OTHER", "B2");
    assert!(a == b);
}

#[test]
fn matching_is_sensitive_to_name() {
    let a = track("Title", &["Artist"], &[], "", "");
    let b = track("Other", &["Artist"], &[], "", "");
    assert!(a != b);
}

#[test]
fn matching_is_sensitive_to_artist_set() {
    let a = track("Title", &["Artist"], &[], "", "");
    let b = track("Title", &["Artist", "More"], &[], "", "");
    assert!(a != b);
    let c = track("Title", &["Someone"], &[], "", "");
    assert!(a != c);
}

#[test]
fn matching_is_sensitive_to_remix_set() {
    let a = track("Title", &["Artist"], &["RemixerA"], "", "");
    let b = track("Title", &["Artist"], &["RemixerB"], "", "");
    let c = track("Title", &["Artist"], &[], "", "");
    assert!(a != b);
    assert!(a != c);
}

#[test]
fn matched_records_from_differently_styled_sources() {
    let catalog = parse_track("Ted Amber - Terula (Barut Remix) [BM006]");
    let scraped = parse_track("TED AMBER - TERULA (barut remix)");
    assert!(catalog == scraped);
}

#[test]
fn artist_and_remixer_name_joining() {
    let t = track("Title", &["ArtistA", "ArtistB"], &["RemixerC"], "", "");
    assert_eq!(t.artist_name(None), "ArtistA ArtistB");
    assert_eq!(t.artist_name(Some(", ")), "ArtistA, ArtistB");
    assert_eq!(t.remixer_name(None), "RemixerC");
    assert_eq!(t.remixer_name(Some(" + ")), "RemixerC");
}

#[test]
fn from_str_matches_parse_track() {
    let a = Track::from_str("Vern - Eter [LKMV004]");
    assert_eq!(a.name, "Eter");
    assert_eq!(a.artists, vec!["Vern"]);
    assert_eq!(a.catno, "LKMV004");
}

#[test]
fn duplicate_artists_are_deduplicated() {
    let t = parse_track("Same & Same - Title");
    assert_eq!(t.artists, vec!["Same"]);
}

#[test]
fn nul_character_acts_as_end_of_title() {
    let t = parse_track("abc\0def");
    assert_eq!(t.name, "abc");
    assert!(t.artists.is_empty());
}

#[test]
fn delimiter_soup_never_fails() {
    let t = parse_track("- ( [ ] ) & , + : .");
    assert_eq!(t.catno, "");
    assert_eq!(t.position, "");
    let u = parse_track("(((((");
    assert!(u.artists.is_empty());
    let v = parse_track("A1.");
    assert_eq!(v.position, "A1");
}

#[test]
fn keyword_table_is_case_sensitive_where_it_lists_cases() {
    // `remix` and `Remix` are keywords, `REMIX` is a plain word
    let keyword = parse_track("Artist - Title (Someone remix)");
    assert_eq!(keyword.remix, vec!["Someone"]);
    let plain = parse_track("Artist - Title (Someone REMIX)");
    assert!(plain.remix.is_empty());
}
