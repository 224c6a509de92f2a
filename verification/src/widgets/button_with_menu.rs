//! Interaction status of the button-with-menu widget.

use vstd::prelude::*;

verus! {

#[derive(Debug, Clone, Copy, PartialEq, Eq, Structural)]
pub enum Status {
    Active,
    Pressed,
    Disabled,
}

} // verus!
