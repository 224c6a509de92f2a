//! State of the selectable container widget and its context menu.

use vstd::prelude::*;

verus! {

#[derive(Debug, Clone, Copy, PartialEq, Eq, Structural)]
pub enum Status {
    Selected,
    Default,
}

/// The state of a context menu: which entry is highlighted, over which
/// options.
#[derive(Debug, Clone)]
pub struct MenuState<'a, T> {
    pub selected: Option<usize>,
    pub options: &'a [T],
}

impl<'a, T> MenuState<'a, T> {
    /// A fresh menu over the given options, nothing highlighted yet.
    pub fn new(options: &'a [T]) -> (r: Self)
        ensures
            r.selected is None,
            r.options@ == options@,
    {
        MenuState { options, selected: None }
    }
}

} // verus!
