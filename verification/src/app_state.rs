//! Application-level state types: the visible section, the kinds of
//! playables, and the interface everything playable presents to the player.

use vstd::prelude::*;

use crate::storage::{AudioFileKind, Playable, Playlist, StorageError};
use crate::util::{dec_digits, dec_string};

verus! {

/// The identifier of a playable; `-1` marks one not yet in the library.
pub type PlayableId = i64;

/// The section of the library the user is looking at.
#[derive(Debug, Clone, Eq, PartialEq, Structural)]
pub enum Section {
    ListenNow,
    Browse,
    Library,
    Favorites,
    RecentlyPlayed,
    Playlist(i64),
    Tag(i64),
}

impl Default for Section {
    fn default() -> (r: Self)
        ensures
            r == Section::Library,
    {
        Section::Library
    }
}

/// The heading shown for a section.
pub open spec fn section_title(s: Section) -> Seq<char> {
    match s {
        Section::ListenNow => "Listen Now"@,
        Section::Browse => "Browse"@,
        Section::Library => "Library"@,
        Section::Favorites => "Favorites"@,
        Section::RecentlyPlayed => "Recently Played"@,
        Section::Playlist(id) => "Playlist "@ + int_digits(id as int),
        Section::Tag(id) => "Tag "@ + int_digits(id as int),
    }
}

/// The decimal digits of a possibly negative number.
pub open spec fn int_digits(n: int) -> Seq<char> {
    if n >= 0 {
        dec_digits(n as nat)
    } else {
        seq!['-'] + dec_digits((-n) as nat)
    }
}

/// Renders a signed identifier in decimal.
fn int_string(n: i64) -> (r: String)
    ensures
        r@ == int_digits(n as int),
{
    if n >= 0 {
        dec_string(n as u128)
    } else {
        let magnitude = -(n as i128);
        let mut out = String::from_str("-");
        let d = dec_string(magnitude as u128);
        out.append(d.as_str());
        proof {
            reveal_strlit("-");
            assert("-"@ =~= seq!['-']);
            assert(out@ =~= int_digits(n as int));
        }
        out
    }
}

impl Section {
    /// The heading shown for this section.
    pub fn title(&self) -> (r: String)
        ensures
            r@ == section_title(*self),
    {
        match self {
            Section::ListenNow => String::from_str("Listen Now"),
            Section::Browse => String::from_str("Browse"),
            Section::Library => String::from_str("Library"),
            Section::Favorites => String::from_str("Favorites"),
            Section::RecentlyPlayed => String::from_str("Recently Played"),
            Section::Playlist(id) => {
                let mut out = String::from_str("Playlist ");
                let d = int_string(*id);
                out.append(d.as_str());
                out
            },
            Section::Tag(id) => {
                let mut out = String::from_str("Tag ");
                let d = int_string(*id);
                out.append(d.as_str());
                out
            },
        }
    }
}

/// The kind of a playable, as the player sees it.
#[derive(Debug, Clone, Copy, PartialEq, Eq, Structural)]
pub enum PlayableKind {
    LocalFile,
    GoogleDrive,
    Dropbox,
    Youtube,
    Stream,
}

impl From<AudioFileKind> for PlayableKind {
    fn from(kind: AudioFileKind) -> (r: Self) {
        match kind {
            AudioFileKind::LocalFile => PlayableKind::LocalFile,
            AudioFileKind::GoogleDrive => PlayableKind::GoogleDrive,
            AudioFileKind::Dropbox => PlayableKind::Dropbox,
            AudioFileKind::Youtube => PlayableKind::Youtube,
            AudioFileKind::Stream => PlayableKind::Stream,
        }
    }
}

impl vstd::std_specs::convert::FromSpecImpl<AudioFileKind> for PlayableKind {
    open spec fn obeys_from_spec() -> bool {
        true
    }

    open spec fn from_spec(kind: AudioFileKind) -> Self {
        match kind {
            AudioFileKind::LocalFile => PlayableKind::LocalFile,
            AudioFileKind::GoogleDrive => PlayableKind::GoogleDrive,
            AudioFileKind::Dropbox => PlayableKind::Dropbox,
            AudioFileKind::Youtube => PlayableKind::Youtube,
            AudioFileKind::Stream => PlayableKind::Stream,
        }
    }
}

/// What everything playable presents to the player.  Fetching the audio
/// itself is I/O and lives with the caller.
pub trait AudioPlayable {
    fn get_id(&self) -> PlayableId;

    fn get_title(&self) -> &str;

    fn get_album(&self) -> &str;

    fn get_artist(&self) -> &str;

    fn get_date_added(&self) -> &i64;

    fn get_genre(&self) -> &str;

    fn get_duration(&self) -> u64;

    fn get_path(&self) -> &str;

    fn get_album_art(&self) -> &Option<Vec<u8>>;

    fn get_kind(&self) -> PlayableKind;
}

impl AudioPlayable for Playable {
    fn get_id(&self) -> PlayableId {
        self.id
    }

    fn get_title(&self) -> &str {
        self.title.as_str()
    }

    fn get_album(&self) -> &str {
        if let Some(name) = &self.album_name {
            name.as_str()
        } else {
            ""
        }
    }

    fn get_artist(&self) -> &str {
        if let Some(name) = &self.artist_name {
            name.as_str()
        } else {
            ""
        }
    }

    fn get_date_added(&self) -> &i64 {
        &self.date_added
    }

    fn get_genre(&self) -> &str {
        if let Some(name) = &self.genre_name {
            name.as_str()
        } else {
            ""
        }
    }

    fn get_duration(&self) -> u64 {
        // a duration below zero is corrupt data; play it as zero length
        if self.duration >= 0 {
            self.duration as u64
        } else {
            0
        }
    }

    fn get_path(&self) -> &str {
        self.source_url.as_str()
    }

    fn get_album_art(&self) -> &Option<Vec<u8>> {
        &self.artwork
    }

    fn get_kind(&self) -> PlayableKind {
        match self.type_id {
            AudioFileKind::LocalFile => PlayableKind::LocalFile,
            AudioFileKind::GoogleDrive => PlayableKind::GoogleDrive,
            AudioFileKind::Dropbox => PlayableKind::Dropbox,
            AudioFileKind::Youtube => PlayableKind::Youtube,
            AudioFileKind::Stream => PlayableKind::Stream,
        }
    }
}

impl From<crate::audio_scanner::ScannedFile> for crate::storage::AudioFileDescriptor {
    fn from(val: crate::audio_scanner::ScannedFile) -> (r: Self) {
        crate::storage::AudioFileDescriptor {
            title: val.title,
            artist: val.artist,
            album: val.album,
            year: val.year,
            genre: val.genre,
            duration: val.duration,
            path: val.path,
            artwork: val.artwork,
            kind: match val.kind {
                crate::audio_scanner::ScannedKind::LocalFile => AudioFileKind::LocalFile,
                crate::audio_scanner::ScannedKind::GoogleDrive => AudioFileKind::GoogleDrive,
                crate::audio_scanner::ScannedKind::Dropbox => AudioFileKind::Dropbox,
                crate::audio_scanner::ScannedKind::Youtube => AudioFileKind::Youtube,
                crate::audio_scanner::ScannedKind::Stream => AudioFileKind::Stream,
            },
        }
    }
}

impl vstd::std_specs::convert::FromSpecImpl<crate::audio_scanner::ScannedFile>
    for crate::storage::AudioFileDescriptor {
    open spec fn obeys_from_spec() -> bool {
        true
    }

    open spec fn from_spec(val: crate::audio_scanner::ScannedFile) -> Self {
        crate::storage::AudioFileDescriptor {
            title: val.title,
            artist: val.artist,
            album: val.album,
            year: val.year,
            genre: val.genre,
            duration: val.duration,
            path: val.path,
            artwork: val.artwork,
            kind: match val.kind {
                crate::audio_scanner::ScannedKind::LocalFile => AudioFileKind::LocalFile,
                crate::audio_scanner::ScannedKind::GoogleDrive => AudioFileKind::GoogleDrive,
                crate::audio_scanner::ScannedKind::Dropbox => AudioFileKind::Dropbox,
                crate::audio_scanner::ScannedKind::Youtube => AudioFileKind::Youtube,
                crate::audio_scanner::ScannedKind::Stream => AudioFileKind::Stream,
            },
        }
    }
}

/// How working on the application state can fail.
#[derive(Debug, Clone, PartialEq, Eq)]
pub enum StateError {
    StorageError(StorageError),
}

impl From<StorageError> for StateError {
    fn from(e: StorageError) -> (r: Self) {
        StateError::StorageError(e)
    }
}

impl vstd::std_specs::convert::FromSpecImpl<StorageError> for StateError {
    open spec fn obeys_from_spec() -> bool {
        true
    }

    open spec fn from_spec(e: StorageError) -> Self {
        StateError::StorageError(e)
    }
}

/// A playlist with the playlists nested under it.
pub struct PlaylistNode {
    pub value: Playlist,
    pub children: Vec<PlaylistNode>,
}

/// What the player is doing right now.
pub struct PlayerState {
    pub current_playable: Option<PlayableId>,
    pub current_index: Option<usize>,
    pub shuffle: bool,
    pub is_playing: bool,
}

impl Default for PlayerState {
    fn default() -> (r: Self)
        ensures
            r.current_playable is None,
            r.current_index is None,
            !r.shuffle,
            !r.is_playing,
    {
        PlayerState { current_playable: None, current_index: None, shuffle: false, is_playing: false }
    }
}

} // verus!
