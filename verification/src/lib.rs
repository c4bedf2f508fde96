//! Analysis of declared package dependencies in a JavaScript or TypeScript
//! project: which are referenced from source, which a lockfile requires,
//! which the user chose to ignore, and which are therefore unused.
//!
//! Contents arrive as plain strings and decisions leave as plain values;
//! reading files, walking the tree and invoking other programs are the
//! caller's business.

pub mod config;
pub mod diagnostics;
pub mod ignore_list;
pub mod lockfile;
pub mod manifest;
pub mod names;
pub mod package_manager;
pub mod scan;
pub mod scanner;
pub mod sets;
pub mod text;
pub mod uninstall;
pub mod util;
