//! Locating, installing and launching the Odin language server (`ols`).
//!
//! The library decides; the host performs. [`resolve::Resolver`] is a state
//! machine that asks for one outside action at a time (read settings, search
//! the path, check a file, fetch a release, download, prune) and is told what
//! came of it. Everything it decides is stated in its contracts and proved.
use vstd::prelude::*;

mod text;
pub mod platform;
pub mod error;
pub mod release;
pub mod cache;
pub mod install;
pub mod resolve;
