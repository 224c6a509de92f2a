//! Reconciliation kernel for freeform music-track title strings.
//!
//! The heart of the crate turns an inconsistently formatted title such as
//! `"Ted Amber - Terula (Barut Remix) [BM006]"` into a canonical [`track::Track`]
//! record, and decides whether two such records denote the same musical work.
//! Around that kernel live the plain data types of the surrounding player:
//! catalog models, storage records, playlist state, and small pieces of UI
//! state whose logic is worth verifying.

pub mod app_state;
pub mod audio_scanner;
pub mod crawler;
pub mod discogs;
pub mod laws;
pub mod lexer;
pub mod login_screen;
pub mod models;
pub mod parser;
pub mod playlist;
pub mod selection;
pub mod sidebar;
pub mod storage;
pub mod theme;
pub mod track;
pub mod ui;
pub mod util;
pub mod widgets;
