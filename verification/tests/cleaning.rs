use phonique::crawler::strip_artist_name_chars;
use phonique::models::{Artist, Track};

fn artist_with_role(name: &str, role: &str) -> Artist {
    Artist {
        anv: String::new(),
        id: 0,
        join: String::new(),
        name: name.to_string(),
        resource_url: String::new(),
        role: role.to_string(),
        tracks: String::new(),
    }
}

fn tracklist_entry(artists: Option<Vec<Artist>>, extraartists: Option<Vec<Artist>>) -> Track {
    Track {
        duration: String::new(),
        position: String::new(),
        title: String::new(),
        type_: String::new(),
        artists,
        extraartists,
    }
}

#[test]
fn artist_name_stripping_for_queries() {
    assert_eq!(strip_artist_name_chars("Ted & Amber"), "Ted Amber");
    assert_eq!(strip_artist_name_chars("A,B"), "AB");
    assert_eq!(strip_artist_name_chars("A ,  B"), "A B");
    assert_eq!(strip_artist_name_chars("  Solo  "), "Solo");
    assert_eq!(strip_artist_name_chars("Plain Name"), "Plain Name");
}

#[test]
fn artists_clean_removes_disambiguation_numbers() {
    let t = tracklist_entry(
        Some(vec![
            artist_with_role("Vern (2)", ""),
            artist_with_role("NoNumber", ""),
            artist_with_role("(Un)Respire", ""),
        ]),
        None,
    );
    assert_eq!(
        t.artists_clean(),
        Some(vec![
            "Vern".to_string(),
            "NoNumber".to_string(),
            "(Un)Respire".to_string()
        ])
    );

    let none = tracklist_entry(None, None);
    assert_eq!(none.artists_clean(), None);
}

#[test]
fn remixers_clean_keeps_remix_roles_only() {
    let t = tracklist_entry(
        None,
        Some(vec![
            artist_with_role("Barut (3)", "Remix"),
            artist_with_role("Someone", "Producer"),
            artist_with_role("Melodie", "Remixed By"),
        ]),
    );
    assert_eq!(
        t.remixers_clean(),
        Some(vec!["Barut".to_string(), "Melodie".to_string()])
    );

    let none = tracklist_entry(None, None);
    assert_eq!(none.remixers_clean(), None);
}
