//! The color theme the user chooses.  The palette values themselves are
//! rendering data and live with the UI layer.

use vstd::prelude::*;

verus! {

#[derive(Debug, Clone, Eq, PartialEq, Structural)]
pub enum Theme {
    Light,
    Dark,
}

impl Default for Theme {
    fn default() -> (r: Self)
        ensures
            r == Theme::Light,
    {
        Theme::Light
    }
}

/// The display name of a theme.
pub open spec fn theme_name(t: Theme) -> Seq<char> {
    match t {
        Theme::Light => "Light"@,
        Theme::Dark => "Dark"@,
    }
}

impl Theme {
    pub fn name(&self) -> (r: &'static str)
        ensures
            r@ == theme_name(*self),
    {
        match self {
            Theme::Light => "Light",
            Theme::Dark => "Dark",
        }
    }
}

} // verus!
