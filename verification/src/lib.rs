//! Package fetching, command lookup, manifest reading and layout migration
//! for a Node.js toolchain manager, with the decisions verified.

pub mod archive;
pub mod command;
pub mod error;
pub mod listing;
pub mod manifest;
pub mod migrate;
pub mod package;
pub mod text;
