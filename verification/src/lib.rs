//! The decisions behind treelix's tag navigation and its maintenance tasks.
//!
//! A *tag* is a definition of, or a reference to, a named construct, found by a tree-sitter
//! tags query. This library turns query matches into tags, filters and labels them, and decides
//! each step of the symbol pickers, of the workspace scans and of the maintenance tasks. The
//! program around it owns the editor, the file system and the terminal.

pub mod cache;
pub mod delivery;
pub mod document;
pub mod goto;
pub mod parse;
pub mod path;
pub mod pattern;
pub mod picker;
pub mod query;
pub mod rope;
pub mod scan;
pub mod select;
pub mod symbols;
pub mod tag;
pub mod tasks;
pub mod text;
pub mod walk;
pub mod workspace;
