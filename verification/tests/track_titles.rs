use phonique::lexer::Scanner;
use phonique::parser::{Parser, TrackPart};
use phonique::track::parse_track;

#[test]
fn scanner_test() {
    println!(
        "{:?}",
        Scanner::new("Barac - Marea Neagra".to_string()).scan()
    );
    println!(
        "{:?}",
        Scanner::new("A1: Barac - Marea Neagra".to_string()).scan()
    );
    println!(
        "{:?}",
        Scanner::new("A1: Barac & Sublee - Marea Neagra (uu remix)".to_string()).scan()
    );
}

#[test]
fn track_side_test() {
    let track_parts = Parser::new("A1: foo".to_string()).parse();
    assert_eq!(
        track_parts,
        vec![
            TrackPart::TrackSide("A1".to_string()),
            TrackPart::TrackName("foo".to_string())
        ]
    );
}

#[test]
fn youtube_generic_title() {
    let track = parse_track("Unknown Artist - Untitled [EEE008]");
    assert_eq!(track.name, "Untitled");
    assert_eq!(track.artists.len(), 1);
    assert_eq!(track.artists[0], "Unknown Artist");
    assert_eq!(track.catno, "EEE008");
}

#[test]
fn youtube_generic_title2() {
    let track = parse_track("Ted Amber - Terula (Barut Remix) [BM006]");
    assert_eq!(track.name, "Terula");
    assert_eq!(track.artists.len(), 1);
    assert_eq!(track.artists[0], "Ted Amber");
    assert_eq!(track.remix[0], "Barut");
    assert_eq!(track.catno, "BM006");
}

#[test]
fn youtube_generic_title3() {
    let track = parse_track("A1. Vern - Eter [LKMV004]");
    assert_eq!(track.name, "Eter");
    assert_eq!(track.artists.len(), 1);
    assert_eq!(track.artists[0], "Vern");
    assert_eq!(track.remix.len(), 0);
    assert_eq!(track.catno, "LKMV004");
    assert_eq!(track.position, "A1");
}

#[test]
fn artist_with_dot() {
    let track = parse_track("Tobias. - Dial");
    assert_eq!(track.name, "Dial");
    assert_eq!(track.artists.len(), 1);
    assert_eq!(track.artists[0], "Tobias.");
    assert_eq!(track.remix.len(), 0);
}

#[test]
fn parantheses_in_track_name() {
    let track = parse_track("Rainfield - (Un)Respire");
    assert_eq!(track.name, "(Un)Respire");
    assert_eq!(track.artists.len(), 1);
    assert_eq!(track.artists[0], "Rainfield");
}

#[test]
fn multiple_remixers() {
    let mut track = parse_track("Mihai Popoviciu - Data On Data (Peter Makto & Gregory S Remix)");
    assert_eq!(track.name, "Data On Data");
    assert_eq!(track.artists.len(), 1);
    assert_eq!(track.artists[0], "Mihai Popoviciu");
    assert_eq!(track.remix.len(), 2);

    track.remix.sort();
    assert_eq!(track.remix, ["Gregory S", "Peter Makto"]);
}

#[test]
fn double_word_remixer() {
    let track = parse_track("Egal 3 - Play You (Povestea Continua Mix)");
    assert_eq!(track.name, "Play You");
    assert_eq!(track.artists.len(), 1);
    assert_eq!(track.artists[0], "Egal 3");
    assert_eq!(track.remix.len(), 1);
    assert_eq!(track.remix, ["Povestea Continua"]);
}

#[test]
fn double_artist() {
    let mut track = parse_track("Gorbani & Enzo Leep - L.E.M (Melodie Remix)");
    assert_eq!(track.name, "L.E.M");
    assert_eq!(track.artists.len(), 2);
    track.artists.sort();
    assert_eq!(track.artists, ["Enzo Leep", "Gorbani"]);
    assert_eq!(track.remix.len(), 1);
    assert_eq!(track.remix, vec!["Melodie"]);
}

#[test]
fn original_mix() {
    let mut track = parse_track("Sonartek & Gorbani - Otherside (Original Mix)");
    assert_eq!(track.name, "Otherside");
    assert_eq!(track.artists.len(), 2);
    track.artists.sort();

    assert_eq!(track.artists, ["Gorbani", "Sonartek"]);
    assert_eq!(track.remix.len(), 0);
}

#[test]
fn double_artist_double_remixer() {
    let mut track = parse_track("Sonartek & Gorbani - Maqueta (Dubbtone & Tileff Remix)");
    assert_eq!(track.name, "Maqueta");
    assert_eq!(track.artists.len(), 2);
    track.artists.sort();
    assert_eq!(track.artists, ["Gorbani", "Sonartek"]);
    assert_eq!(track.remix.len(), 2);
    track.remix.sort();
    assert_eq!(track.remix, ["Dubbtone", "Tileff"]);
}

#[test]
fn basic() {
    let track = parse_track("Sonartek - Maqueta");
    assert_eq!(track.name, "Maqueta");
    assert_eq!(track.artists.len(), 1);
    assert_eq!(track.artists, vec!["Sonartek"]);
    assert_eq!(track.remix.len(), 0);
}

#[test]
fn comma_names() {
    let mut track = parse_track("Gorbani, Maurice Giovannini - Babagam");
    assert_eq!(track.name, "Babagam");
    assert_eq!(track.artists.len(), 2);
    track.artists.sort();
    assert_eq!(track.artists, ["Gorbani", "Maurice Giovannini"]);
    assert_eq!(track.remix.len(), 0);
}

#[test]
fn and_comma_remixer_names() {
    let mut track = parse_track("Dirty Sex Music - Confusion (Bedrud, Grolle & Giese Remix)");
    assert_eq!(track.name, "Confusion");
    assert_eq!(track.artists.len(), 1);
    assert_eq!(track.artists, vec!["Dirty Sex Music"]);

    assert_eq!(track.remix.len(), 3);
    track.remix.sort();
    assert_eq!(track.remix, ["Bedrud", "Giese", "Grolle"]);
}
