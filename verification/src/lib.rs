//! Library behind a two-sided shell prompt: classification of directory
//! entries, Git repository state resolution, and the ZSH-escaped text each
//! prompt section is made of.

pub mod command_line;
pub mod datetime;
pub mod directory;
pub mod git;
pub mod hardware;
pub mod metadata;
pub mod path;
pub mod prompt;
pub mod text;
