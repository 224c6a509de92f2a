//! State types of the custom widgets.  Drawing belongs to the UI layer;
//! what is kept here is the data those widgets carry between events.

pub mod button_with_menu;
pub mod compact_row;
pub mod container;
