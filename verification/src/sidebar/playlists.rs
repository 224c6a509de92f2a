//! The context menu offered on a playlist in the sidebar.

use vstd::prelude::*;

verus! {

#[derive(Clone, Copy, Debug, PartialEq, Eq, Structural)]
pub enum MenuOptions {
    Rename,
    Delete,
    Clear,
}

/// The caption of a playlist context-menu entry.
pub open spec fn menu_caption(o: MenuOptions) -> Seq<char> {
    match o {
        MenuOptions::Rename => "Rename Playlist"@,
        MenuOptions::Delete => "Delete Playlist"@,
        MenuOptions::Clear => "Clear Playlist"@,
    }
}

impl MenuOptions {
    pub fn caption(&self) -> (r: &'static str)
        ensures
            r@ == menu_caption(*self),
    {
        match self {
            MenuOptions::Rename => "Rename Playlist",
            MenuOptions::Delete => "Delete Playlist",
            MenuOptions::Clear => "Clear Playlist",
        }
    }
}

} // verus!
