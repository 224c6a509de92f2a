//! The record an audio-file scan produces.  Reading tags from disk is I/O
//! and lives with the caller; these types carry its result.

use vstd::prelude::*;

verus! {

/// Where a scanned file came from.
#[derive(Debug, Clone, Copy, PartialEq, Eq, Structural)]
pub enum ScannedKind {
    LocalFile,
    GoogleDrive,
    Dropbox,
    Youtube,
    Stream,
}

/// The metadata gathered from one audio file.
#[derive(Debug, Clone)]
pub struct ScannedFile {
    pub title: String,
    pub artist: String,
    pub album: String,
    pub year: u16,
    pub genre: String,
    pub duration: u64,
    pub path: String,
    pub artwork: Option<Vec<u8>>,
    pub kind: ScannedKind,
}

} // verus!
