//! A terminal dashboard client for a chat workspace, organised as a reactive
//! pipeline: keystrokes become semantic commands, commands update a shared
//! state snapshot and may emit asynchronous requests, and a render loop
//! repaints the screen only when the snapshot has changed.
//!
//! This crate holds the pipeline itself — the snapshot model, the screen
//! registry, the keymap and command logic, the merge rules for fetched data
//! and the memoised render planning — all verified. The surrounding shell
//! (terminal, network, disk) drives it from outside.

pub mod app;
pub mod cache;
pub mod constants;
pub mod context;
pub mod datasources;
pub mod entities;
pub mod enums;
pub mod eqv;
pub mod keymaps;
pub mod presentation;
pub mod route;
pub mod states;
pub mod strutil;
pub mod style;
pub mod utils;
