//! Media type detection, conversion-target registry and command-line
//! decisions of the `nr` media converter.

pub mod detect;
pub mod error;
pub mod text;
pub mod registry;
pub mod cli;
pub mod clipboard;
pub mod interactive;
pub mod ffmpeg;
pub mod install;
