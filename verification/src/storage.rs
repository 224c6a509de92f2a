//! Records of the local music library and the storage interface.
//!
//! The records mirror the rows a storage backend keeps: playables, artists,
//! albums, genres, likes, playlists and tags.  [`Storage`] is the interface a
//! backend implements; [`DummyStorage`] is the fallback backend that stores
//! nothing and never fails.

use vstd::prelude::*;

verus! {

/// Where a playable's audio comes from.
#[derive(Debug, Clone, Copy, PartialEq, Eq, Structural)]
pub enum AudioFileKind {
    LocalFile,
    GoogleDrive,
    Dropbox,
    Youtube,
    Stream,
}

impl AudioFileKind {
    /// The stable numeric code a backend stores for this kind.
    pub open spec fn code_spec(self) -> i64 {
        match self {
            AudioFileKind::LocalFile => 0,
            AudioFileKind::GoogleDrive => 1,
            AudioFileKind::Dropbox => 2,
            AudioFileKind::Youtube => 3,
            AudioFileKind::Stream => 4,
        }
    }

    pub fn code(&self) -> (r: i64)
        ensures
            r == self.code_spec(),
    {
        match self {
            AudioFileKind::LocalFile => 0,
            AudioFileKind::GoogleDrive => 1,
            AudioFileKind::Dropbox => 2,
            AudioFileKind::Youtube => 3,
            AudioFileKind::Stream => 4,
        }
    }

    /// Decodes a stored numeric code; exactly the codes zero through four are
    /// valid, anything else is an invalid playable kind.
    pub fn from_code(value: i64) -> (r: Result<AudioFileKind, StorageError>)
        ensures
            (match r {
                Result::Ok(k) => 0 <= value <= 4 && k.code_spec() == value,
                Result::Err(e) => !(0 <= value <= 4) && e == StorageError::InvalidPlayableKind,
            }),
    {
        match value {
            0 => Ok(AudioFileKind::LocalFile),
            1 => Ok(AudioFileKind::GoogleDrive),
            2 => Ok(AudioFileKind::Dropbox),
            3 => Ok(AudioFileKind::Youtube),
            4 => Ok(AudioFileKind::Stream),
            _ => Err(StorageError::InvalidPlayableKind),
        }
    }
}

/// One playable entry of the library.
#[derive(Debug, Clone, PartialEq, Eq)]
pub struct Playable {
    pub id: i64,
    pub title: String,
    pub artist_name: Option<String>,
    pub album_name: Option<String>,
    pub genre_name: Option<String>,
    pub duration: i64,
    pub source_url: String,
    pub type_id: AudioFileKind,
    pub date_added: i64,
    pub artwork: Option<Vec<u8>>,
}

#[derive(Debug, Clone)]
pub struct Artist {
    pub id: i64,
    pub name: String,
}

#[derive(Debug, Clone)]
pub struct Album {
    pub id: i64,
    pub name: String,
}

#[derive(Debug, Clone)]
pub struct Genre {
    pub id: i64,
    pub name: String,
}

#[derive(Debug, Clone)]
pub struct Like {
    pub playable_id: i64,
}

/// The kind of a playlist: a plain static list, a dynamic query, or a folder
/// of other playlists.
#[derive(Debug, Clone, PartialEq, Eq, Structural)]
pub enum PlaylistKind {
    Static,
    Dynamic,
    Folder,
}

impl Default for PlaylistKind {
    fn default() -> (r: Self)
        ensures
            r == PlaylistKind::Static,
    {
        PlaylistKind::Static
    }
}

/// The label a backend stores for a playlist kind.
pub open spec fn playlist_kind_label(k: PlaylistKind) -> Seq<char> {
    match k {
        PlaylistKind::Static => "static"@,
        PlaylistKind::Dynamic => "dynamic"@,
        PlaylistKind::Folder => "folder"@,
    }
}

impl PlaylistKind {
    pub fn as_str(&self) -> (r: &'static str)
        ensures
            r@ == playlist_kind_label(*self),
    {
        match self {
            PlaylistKind::Static => "static",
            PlaylistKind::Dynamic => "dynamic",
            PlaylistKind::Folder => "folder",
        }
    }

    /// Decodes a stored label; an unknown label falls back to a static
    /// playlist.
    pub fn from_label(s: &str) -> (r: Self)
        ensures
            r == (if s@ == "static"@ {
                PlaylistKind::Static
            } else if s@ == "dynamic"@ {
                PlaylistKind::Dynamic
            } else if s@ == "folder"@ {
                PlaylistKind::Folder
            } else {
                PlaylistKind::Static
            }),
    {
        if crate::lexer::str_eq(s, "static") {
            PlaylistKind::Static
        } else if crate::lexer::str_eq(s, "dynamic") {
            PlaylistKind::Dynamic
        } else if crate::lexer::str_eq(s, "folder") {
            PlaylistKind::Folder
        } else {
            PlaylistKind::Static
        }
    }

    /// Decodes an optional stored label; a missing one means a static
    /// playlist.
    pub fn from_optional_label(s: &Option<String>) -> (r: Self)
        ensures
            r == (match s {
                Option::Some(kind_str) => if kind_str@ == "static"@ {
                    PlaylistKind::Static
                } else if kind_str@ == "dynamic"@ {
                    PlaylistKind::Dynamic
                } else if kind_str@ == "folder"@ {
                    PlaylistKind::Folder
                } else {
                    PlaylistKind::Static
                },
                Option::None => PlaylistKind::Static,
            }),
    {
        match s {
            Some(kind_str) => Self::from_label(kind_str.as_str()),
            None => PlaylistKind::Static,
        }
    }
}

#[derive(Debug, Clone)]
pub struct Playlist {
    pub id: i64,
    pub parent_id: Option<i64>,
    pub name: String,
    pub kind: PlaylistKind,
    pub position: Option<i64>,
}

#[derive(Debug, Clone)]
pub struct PlaylistPlayable {
    pub playlist_id: i64,
    pub playable_id: i64,
    pub position: i64,
}

#[derive(Debug, Clone)]
pub struct Tag {
    pub id: i64,
    pub name: String,
}

#[derive(Debug, Clone)]
pub struct PlayableTag {
    pub tag_id: i64,
    pub playable_id: i64,
}

/// What a scan of an audio file hands to the library for insertion.
#[derive(Debug, Clone)]
pub struct AudioFileDescriptor {
    pub title: String,
    pub artist: String,
    pub album: String,
    pub year: u16,
    pub genre: String,
    pub duration: u64,
    pub path: String,
    pub artwork: Option<Vec<u8>>,
    pub kind: AudioFileKind,
}

/// How a storage backend can fail.
#[derive(Debug, Clone, PartialEq, Eq)]
pub enum StorageError {
    /// A failure reported by the underlying database, carried as its message.
    LibsqlError(String),
    InvalidPlayableKind,
    QueryError,
    PlaylistExists,
    DuplicateEntry,
}

/// The message text of a storage error.
pub open spec fn storage_error_message(e: StorageError) -> Seq<char> {
    match e {
        StorageError::LibsqlError(s) => "SQLite error: "@ + s@,
        StorageError::InvalidPlayableKind => "Invalid playable kind"@,
        StorageError::QueryError => "Query Error"@,
        StorageError::PlaylistExists => "Playlist already exists"@,
        StorageError::DuplicateEntry => "Duplicate entry"@,
    }
}

impl StorageError {
    pub fn message(&self) -> (r: String)
        ensures
            r@ == storage_error_message(*self),
    {
        match self {
            StorageError::LibsqlError(s) => {
                let mut m = String::from_str("SQLite error: ");
                m.append(s.as_str());
                m
            },
            StorageError::InvalidPlayableKind => String::from_str("Invalid playable kind"),
            StorageError::QueryError => String::from_str("Query Error"),
            StorageError::PlaylistExists => String::from_str("Playlist already exists"),
            StorageError::DuplicateEntry => String::from_str("Duplicate entry"),
        }
    }
}

/// The interface a storage backend implements.
pub trait Storage {
    fn read_library(&self) -> Result<Vec<Playable>, StorageError>;

    fn read_library_from_ids(&self, ids: &[i64]) -> Result<Vec<Playable>, StorageError>;

    fn read_likes(&self) -> Result<Vec<Playable>, StorageError>;

    fn read_playlist(&self, playlist_id: i64) -> Result<Vec<Playable>, StorageError>;

    fn read_tag(&self, tag_id: i64) -> Result<Vec<Playable>, StorageError>;

    fn create_playlist(
        &mut self,
        name: &str,
        kind: Option<PlaylistKind>,
        parent_id: Option<i64>,
    ) -> Result<i64, StorageError>;

    fn delete_playlist(&mut self, playlist_id: i64) -> Result<(), StorageError>;

    fn rename_playlist(&mut self, playlist_id: i64, name: &str) -> Result<(), StorageError>;

    fn read_playlists(&self) -> Result<Vec<Playlist>, StorageError>;

    fn create_tag(&mut self, name: &str) -> Result<i64, StorageError>;

    fn delete_tag(&mut self, tag_id: i64) -> Result<(), StorageError>;

    fn rename_tag(&mut self, tag_id: i64, name: &str) -> Result<(), StorageError>;

    fn read_tags(&self) -> Result<Vec<Tag>, StorageError>;

    fn clear_playlist(&mut self, id: i64) -> Result<(), StorageError>;

    fn append_to_library(&mut self, arg: &AudioFileDescriptor) -> Result<i64, StorageError>;

    fn append_to_playlist(
        &mut self,
        playlist_id: i64,
        playable_id: i64,
    ) -> Result<(), StorageError>;

    fn append_to_tag(&mut self, tag_id: i64, playable_id: i64) -> Result<(), StorageError>;

    fn append_like(&mut self, playable_id: i64) -> Result<(), StorageError>;

    fn remove_from_library(&mut self, id: i64) -> Result<(), StorageError>;

    fn remove_from_likes(&mut self, playable_id: i64) -> Result<(), StorageError>;

    fn remove_from_playlist(
        &mut self,
        playlist_id: i64,
        playable_id: i64,
    ) -> Result<(), StorageError>;

    fn remove_from_tag(&mut self, tag_id: i64, playable_id: i64) -> Result<(), StorageError>;

    fn bulk_append_to_library(
        &mut self,
        playables: &[AudioFileDescriptor],
    ) -> Result<Vec<i64>, StorageError>;

    fn bulk_append_to_playlist(
        &mut self,
        playlist_id: i64,
        playables: &[AudioFileDescriptor],
    ) -> Result<(), StorageError>;

    fn bulk_remove_from_library(&mut self, playable_ids: &[i64]) -> Result<(), StorageError>;

    fn bulk_remove_from_playlist(
        &mut self,
        playlist_id: i64,
        indexes: &[i64],
    ) -> Result<(), StorageError>;

    fn is_liked(&self, playable_id: i64) -> Result<bool, StorageError>;

    fn filter_library_by_paths(&self, paths: &[String]) -> Result<Vec<Playable>, StorageError>;
}

/// The backend of last resort: it stores nothing, returns empty results, and
/// never fails.
pub struct DummyStorage;

impl Storage for DummyStorage {
    fn read_library(&self) -> Result<Vec<Playable>, StorageError> {
        Ok(vec![])
    }

    fn read_library_from_ids(&self, _ids: &[i64]) -> Result<Vec<Playable>, StorageError> {
        Ok(vec![])
    }

    fn read_likes(&self) -> Result<Vec<Playable>, StorageError> {
        Ok(vec![])
    }

    fn read_playlist(&self, _playlist_id: i64) -> Result<Vec<Playable>, StorageError> {
        Ok(vec![])
    }

    fn read_tag(&self, _tag_id: i64) -> Result<Vec<Playable>, StorageError> {
        Ok(vec![])
    }

    fn create_playlist(
        &mut self,
        _name: &str,
        _kind: Option<PlaylistKind>,
        _parent_id: Option<i64>,
    ) -> Result<i64, StorageError> {
        Ok(0)
    }

    fn delete_playlist(&mut self, _playlist_id: i64) -> Result<(), StorageError> {
        Ok(())
    }

    fn rename_playlist(&mut self, _playlist_id: i64, _name: &str) -> Result<(), StorageError> {
        Ok(())
    }

    fn read_playlists(&self) -> Result<Vec<Playlist>, StorageError> {
        Ok(vec![])
    }

    fn create_tag(&mut self, _name: &str) -> Result<i64, StorageError> {
        Ok(0)
    }

    fn delete_tag(&mut self, _tag_id: i64) -> Result<(), StorageError> {
        Ok(())
    }

    fn rename_tag(&mut self, _tag_id: i64, _name: &str) -> Result<(), StorageError> {
        Ok(())
    }

    fn read_tags(&self) -> Result<Vec<Tag>, StorageError> {
        Ok(vec![])
    }

    fn clear_playlist(&mut self, _id: i64) -> Result<(), StorageError> {
        Ok(())
    }

    fn append_to_library(&mut self, _arg: &AudioFileDescriptor) -> Result<i64, StorageError> {
        Ok(0)
    }

    fn append_to_playlist(
        &mut self,
        _playlist_id: i64,
        _playable_id: i64,
    ) -> Result<(), StorageError> {
        Ok(())
    }

    fn append_to_tag(&mut self, _tag_id: i64, _playable_id: i64) -> Result<(), StorageError> {
        Ok(())
    }

    fn append_like(&mut self, _playable_id: i64) -> Result<(), StorageError> {
        Ok(())
    }

    fn remove_from_library(&mut self, _id: i64) -> Result<(), StorageError> {
        Ok(())
    }

    fn remove_from_likes(&mut self, _playable_id: i64) -> Result<(), StorageError> {
        Ok(())
    }

    fn remove_from_playlist(
        &mut self,
        _playlist_id: i64,
        _playable_id: i64,
    ) -> Result<(), StorageError> {
        Ok(())
    }

    fn remove_from_tag(&mut self, _tag_id: i64, _playable_id: i64) -> Result<(), StorageError> {
        Ok(())
    }

    fn bulk_append_to_library(
        &mut self,
        _playables: &[AudioFileDescriptor],
    ) -> Result<Vec<i64>, StorageError> {
        Ok(vec![])
    }

    fn bulk_append_to_playlist(
        &mut self,
        _playlist_id: i64,
        _playables: &[AudioFileDescriptor],
    ) -> Result<(), StorageError> {
        Ok(())
    }

    fn bulk_remove_from_library(&mut self, _playable_ids: &[i64]) -> Result<(), StorageError> {
        Ok(())
    }

    fn bulk_remove_from_playlist(
        &mut self,
        _playlist_id: i64,
        _indexes: &[i64],
    ) -> Result<(), StorageError> {
        Ok(())
    }

    fn is_liked(&self, _playable_id: i64) -> Result<bool, StorageError> {
        Ok(false)
    }

    fn filter_library_by_paths(&self, _paths: &[String]) -> Result<Vec<Playable>, StorageError> {
        Ok(vec![])
    }
}

} // verus!
