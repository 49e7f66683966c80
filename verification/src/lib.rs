//! Tools for bundling downloaded chat emotes and stickers into a zip
//! container: a filename sanitizer, the item model, and an archive
//! builder with deterministic duplicate-name resolution.

pub mod archive;
pub mod download;
pub mod guilds;
pub mod items;
pub mod menu;
pub mod text;
pub mod utils;
pub mod zipio;

pub use utils::sanitize_filename;
