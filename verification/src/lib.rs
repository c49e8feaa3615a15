//! Verified core of a converter from PC visual-novel and RPG game folders to
//! signed Android packages.
pub mod autodetect;
pub mod error_translate;
pub mod json;
pub mod paths;
pub mod pipeline;
pub mod settings;
pub mod state;
pub mod text;
pub mod toolchain;
pub mod version;
