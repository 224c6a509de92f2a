//! Interaction status of a compact list row.

use vstd::prelude::*;

verus! {

#[derive(Debug, Clone, Copy, PartialEq, Eq, Structural)]
pub enum Status {
    Default,
    Hovered,
    Selected,
}

} // verus!
