//! Core logic of a terminal Minecraft launcher: version metadata, platform
//! rules, launch-command planning, instance and account bookkeeping, and the
//! decision logic behind the command line and the terminal interface.
pub mod text;
pub mod platform;
pub mod api;
pub mod config;
pub mod launcher;
pub mod download;
pub mod sort;
pub mod instance;
pub mod progress;
pub mod versions;
pub mod ui;
pub mod auth;
pub mod mods;
pub mod screen;
