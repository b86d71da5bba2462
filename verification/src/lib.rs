//! A version manager for Node.js: it resolves a version range against the
//! versions that are published and those that are installed, and installs,
//! removes and activates versions.
//!
//! The library decides and computes; it touches neither the disk nor the
//! network. Whatever is to be done there it hands out as an
//! [`engine::Action`], and it is told what came of it by an
//! [`engine::Event`]. Every function is verified against its contract, except
//! the calls into other crates, which are gathered in [`bridge`].
//!
//! The versions directory and the link to the active version are the only
//! state, and nothing locks them: the operations are meant to be run one at a
//! time, by one user.

pub mod archive;
pub mod bridge;
pub mod command;
pub mod config;
pub mod engine;
pub mod files;
pub mod install;
pub mod is_installed;
pub mod laws;
pub mod list;
pub mod ls;
pub mod node_version;
pub mod order;
pub mod parse_version;
pub mod platform;
pub mod range;
pub mod select;
pub mod sorting;
pub mod switch;
pub mod text;
pub mod uninstall;
pub mod utils;
pub mod version;
pub mod version_traits;
