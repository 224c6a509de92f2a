//! Context-menu entries of the sidebar sections.  The sidebar's layout and
//! event plumbing belong to the UI layer; what is kept here are the menus'
//! options and captions.

pub mod playlists;
pub mod tags;
