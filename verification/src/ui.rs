//! State carried by the catalog-browsing screen: the context-menu entries
//! and the card shown for each search result.

use vstd::prelude::*;

verus! {

/// The actions offered on a search-result card.
#[derive(Clone, Debug, Eq, PartialEq, Structural)]
pub enum ContextMenuOptions {
    BrowseLabel,
    BrowseArtist,
    AppendToPlaylist,
}

/// The caption of a context-menu entry.
pub open spec fn context_menu_caption(o: ContextMenuOptions) -> Seq<char> {
    match o {
        ContextMenuOptions::BrowseLabel => "Browse Label"@,
        ContextMenuOptions::BrowseArtist => "Browse Artist"@,
        ContextMenuOptions::AppendToPlaylist => "Append to Playlist"@,
    }
}

impl ContextMenuOptions {
    pub fn caption(&self) -> (r: &'static str)
        ensures
            r@ == context_menu_caption(*self),
    {
        match self {
            ContextMenuOptions::BrowseLabel => "Browse Label",
            ContextMenuOptions::BrowseArtist => "Browse Artist",
            ContextMenuOptions::AppendToPlaylist => "Append to Playlist",
        }
    }
}

/// One search result rendered as a card.
#[derive(Debug, Clone)]
pub struct CardState {
    pub title: String,
    pub cat_no: String,
    pub style: String,
    pub id: i32,
    pub label: Vec<String>,
}

} // verus!
