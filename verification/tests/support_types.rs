use phonique::app_state::{PlayableKind, Section};
use phonique::crawler::{get_string_between, CrawlerId, Stream};
use phonique::discogs::{DiscogsClient, DiscogsError};
use phonique::login_screen::{Login, Message};
use phonique::models::{Artist, SearchParams, SearchType, Track};
use phonique::playlist::{DiscogsTrack, DiscogsTrackStatus, PlaylistState};
use phonique::sidebar::{playlists, tags};
use phonique::storage::{AudioFileKind, PlaylistKind, StorageError};
use phonique::theme::Theme;
use phonique::ui::ContextMenuOptions;
use phonique::util::duration_to_str;
use phonique::widgets::container::MenuState;

#[test]
fn duration_rendering() {
    assert_eq!(duration_to_str(0), "0:00");
    assert_eq!(duration_to_str(59), "0:59");
    assert_eq!(duration_to_str(60), "1:00");
    assert_eq!(duration_to_str(125), "2:05");
    assert_eq!(duration_to_str(3599), "59:59");
    assert_eq!(duration_to_str(3661), "61:01");
}

#[test]
fn string_between_markers() {
    assert_eq!(get_string_between("<a>x</a>", "<a>", "</a>"), "x");
    assert_eq!(get_string_between("k=v&rest", "k=", "&"), "v");
    assert_eq!(get_string_between("[abc", "[", "]"), "abc");
    // the segment ends at the next occurrence of the left marker
    assert_eq!(get_string_between("-a-b-", "-", "]"), "a");
}

#[test]
fn audio_file_kind_codes() {
    assert_eq!(AudioFileKind::LocalFile.code(), 0);
    assert_eq!(AudioFileKind::Stream.code(), 4);
    assert_eq!(AudioFileKind::from_code(2), Ok(AudioFileKind::Dropbox));
    assert_eq!(
        AudioFileKind::from_code(7),
        Err(StorageError::InvalidPlayableKind)
    );
    assert_eq!(
        AudioFileKind::from_code(-1),
        Err(StorageError::InvalidPlayableKind)
    );
}

#[test]
fn playlist_kind_labels() {
    assert_eq!(PlaylistKind::Static.as_str(), "static");
    assert_eq!(PlaylistKind::Dynamic.as_str(), "dynamic");
    assert_eq!(PlaylistKind::Folder.as_str(), "folder");
    assert_eq!(PlaylistKind::from_label("dynamic"), PlaylistKind::Dynamic);
    assert_eq!(PlaylistKind::from_label("anything"), PlaylistKind::Static);
    assert_eq!(
        PlaylistKind::from_optional_label(&Some("folder".to_string())),
        PlaylistKind::Folder
    );
    assert_eq!(PlaylistKind::from_optional_label(&None), PlaylistKind::Static);
    assert_eq!(PlaylistKind::default(), PlaylistKind::Static);
}

#[test]
fn storage_error_messages() {
    assert_eq!(
        StorageError::LibsqlError("no such table".to_string()).message(),
        "SQLite error: no such table"
    );
    assert_eq!(StorageError::QueryError.message(), "Query Error");
    assert_eq!(
        StorageError::PlaylistExists.message(),
        "Playlist already exists"
    );
    assert_eq!(StorageError::DuplicateEntry.message(), "Duplicate entry");
}

#[test]
fn section_titles() {
    assert_eq!(Section::Library.title(), "Library");
    assert_eq!(Section::RecentlyPlayed.title(), "Recently Played");
    assert_eq!(Section::Playlist(5).title(), "Playlist 5");
    assert_eq!(Section::Tag(-3).title(), "Tag -3");
    assert_eq!(Section::default(), Section::Library);
}

#[test]
fn playable_kind_conversion() {
    assert!(PlayableKind::from(AudioFileKind::Youtube) == PlayableKind::Youtube);
    assert!(PlayableKind::from(AudioFileKind::LocalFile) == PlayableKind::LocalFile);
}

#[test]
fn theme_names() {
    assert_eq!(Theme::Light.name(), "Light");
    assert_eq!(Theme::Dark.name(), "Dark");
    assert_eq!(Theme::default(), Theme::Light);
}

#[test]
fn crawler_tags() {
    assert_eq!(CrawlerId::Beatport.tag(), "BT");
    assert_eq!(CrawlerId::Bandcamp.tag(), "BC");
}

#[test]
fn context_menu_captions() {
    assert_eq!(ContextMenuOptions::BrowseLabel.caption(), "Browse Label");
    assert_eq!(ContextMenuOptions::BrowseArtist.caption(), "Browse Artist");
    assert_eq!(
        ContextMenuOptions::AppendToPlaylist.caption(),
        "Append to Playlist"
    );
}

#[test]
fn menu_state_starts_unselected() {
    let options = [ContextMenuOptions::BrowseLabel, ContextMenuOptions::BrowseArtist];
    let state = MenuState::new(&options);
    assert!(state.selected.is_none());
    assert_eq!(state.options.len(), 2);
}

#[test]
fn login_form_updates() {
    let mut login = Login::default();
    login.update(Message::UsernameChanged("alice".to_string()));
    login.update(Message::PasswordChanged("hunter2".to_string()));
    let rendered = format!("{login:?}");
    assert!(rendered.contains("alice"));
    assert!(rendered.contains("hunter2"));
    // the login press changes nothing about the form itself
    login.update(Message::LoginPressed);
    assert_eq!(format!("{login:?}"), rendered);
}

#[test]
fn client_builder_validation() {
    let missing_key = DiscogsClient::builder().build();
    assert!(matches!(missing_key, Err(DiscogsError::ConsumerKeyRequired)));

    let missing_secret = DiscogsClient::builder()
        .consumer_key("k".to_string())
        .build();
    assert!(matches!(
        missing_secret,
        Err(DiscogsError::ConsumerSecretRequired)
    ));

    let unauthenticated = DiscogsClient::builder()
        .consumer_key("k".to_string())
        .consumer_secret("s".to_string())
        .build()
        .unwrap();
    assert!(!unauthenticated.is_auth());

    let client = DiscogsClient::builder()
        .consumer_key("k".to_string())
        .consumer_secret("s".to_string())
        .oauth_token("t".to_string())
        .oauth_token_secret("ts".to_string())
        .build()
        .unwrap();
    assert!(client.is_auth());
    assert_eq!(client.build_url("/releases/1"), "https://api.discogs.com/releases/1");
    assert_eq!(
        client.auth_header(12, 34),
        "OAuth oauth_consumer_key=\"k\",oauth_token=\"t\",oauth_signature=\"s&ts\",oauth_signature_method=\"PLAINTEXT\",oauth_version=\"1.0\",oauth_timestamp=\"12\",oauth_nonce=\"34\""
    );
}

#[test]
fn discogs_error_messages() {
    assert_eq!(
        DiscogsError::NetworkError("timed out".to_string()).message(),
        "Network error: timed out"
    );
    assert_eq!(
        DiscogsError::AuthenticationRequired.message(),
        "Authentication required"
    );
}

#[test]
fn search_params_build_the_query() {
    let params = SearchParams::default()
        .query("terula".to_string())
        .search_type(SearchType::Release)
        .year(1999)
        .page_size(200);
    let pairs = params.to_query_params();
    assert_eq!(
        pairs,
        vec![
            ("q".to_string(), "terula".to_string()),
            ("type".to_string(), "release".to_string()),
            ("year".to_string(), "1999".to_string()),
            ("per_page".to_string(), "200".to_string()),
        ]
    );
}

#[test]
fn search_params_empty_query() {
    let pairs = SearchParams::default().to_query_params();
    assert!(pairs.is_empty());
}

fn sample_artist(name: &str) -> Artist {
    Artist {
        anv: String::new(),
        id: 1,
        join: String::new(),
        name: name.to_string(),
        resource_url: String::new(),
        role: String::new(),
        tracks: String::new(),
    }
}

#[test]
fn track_artist_or_release_artist() {
    let with_artists = Track {
        duration: String::new(),
        position: "A1".to_string(),
        title: "Terula".to_string(),
        type_: "track".to_string(),
        artists: Some(vec![sample_artist("Ted"), sample_artist("Amber")]),
        extraartists: None,
    };
    assert_eq!(with_artists.artist_or_release_artist("Fallback"), "Ted, Amber");

    let without_artists = Track {
        duration: String::new(),
        position: "A2".to_string(),
        title: "Eter".to_string(),
        type_: "track".to_string(),
        artists: None,
        extraartists: None,
    };
    assert_eq!(without_artists.artist_or_release_artist("Fallback"), "Fallback");
}

fn sample_track(title: &str) -> DiscogsTrack {
    DiscogsTrack {
        artist: "Artist".to_string(),
        title: title.to_string(),
        catno: "C1".to_string(),
        streams: vec![],
        album: "Album".to_string(),
        album_art: None,
        date_added: 0,
        status: DiscogsTrackStatus::Loading,
        web_path: String::new(),
        genre: String::new(),
    }
}

#[test]
fn playlist_state_append_and_update() {
    let mut state = PlaylistState::default();
    state.append(7, vec![sample_track("One"), sample_track("Two")]);
    assert_eq!(state.playables().len(), 2);
    assert_eq!(state.playables()[0].title, "One");

    // a second append of the same release changes nothing
    state.append(7, vec![sample_track("Three")]);
    assert_eq!(state.playables().len(), 2);

    let stream = Stream {
        page_url: "page".to_string(),
        audio_url: "audio".to_string(),
        craler_id: CrawlerId::Bandcamp,
    };
    state.update_streams(7, vec![vec![Some(stream), None], vec![]]);
    assert_eq!(state.playables()[0].streams.len(), 1);
    assert_eq!(state.playables()[0].streams[0].page_url, "page");
    assert!(state.playables()[1].streams.is_empty());

    state.status_update(7, DiscogsTrackStatus::Complete);
    assert!(matches!(
        state.playables()[0].status,
        DiscogsTrackStatus::Complete
    ));
    assert!(matches!(
        state.playables()[1].status,
        DiscogsTrackStatus::Complete
    ));
}

#[test]
fn sidebar_menu_captions() {
    assert_eq!(playlists::MenuOptions::Rename.caption(), "Rename Playlist");
    assert_eq!(playlists::MenuOptions::Delete.caption(), "Delete Playlist");
    assert_eq!(playlists::MenuOptions::Clear.caption(), "Clear Playlist");
    assert_eq!(tags::MenuOptions::Rename.caption(), "Rename Tag");
    assert_eq!(tags::MenuOptions::Delete.caption(), "Delete Tag");
    assert_eq!(tags::MenuOptions::Clear.caption(), "Clear Tag");
}
