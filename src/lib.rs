//! Core logic of a terminal front-end for the Arch Linux package managers:
//! parsing of package-manager output, fuzzy ranking of package lists, the
//! state of the interactive selector with its preview cache, and the
//! lifecycle of long-running package operations.
pub mod app;
pub mod commands;
pub mod filter;
pub mod help;
pub mod home_state;
pub mod package;
pub mod selector;
pub mod settings;
pub mod spinner;
pub mod text;
pub mod theme;
pub mod types;
pub mod update_window;
pub mod menu;
