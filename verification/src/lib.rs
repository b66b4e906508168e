//! A structural index of Rust source code.
//!
//! A syntax tree, as an incremental parser produces it, is walked node by node
//! and the declarations found in it (structs, enums, functions, modules,
//! imports, type aliases, macro invocations and impl blocks) are recorded in a
//! plain data model, file after file.
//!
//! - [`text`]: strings and byte ranges of a source text.
//! - [`syntax`]: the syntax tree as plain values, and its model.
//! - [`records`] and [`store`]: the records and the aggregate store.
//! - [`kinds`]: the kind tags and field names of the grammar.
//! - [`rules`]: what each record holds, as functions of tree and text.
//! - [`extract`] and [`extractors`]: the extraction that computes it.
//! - [`traverse`]: the extractor trait and the tree walker.
//! - [`parse`]: parsing with `tree_sitter`, and what is trusted of it.
//! - [`index`]: indexing of files.
//! - [`directory`]: which entries of a directory listing are indexed.
//! - [`print_blocks`]: the source text of a record.
//! - [`laws`]: what holds of the index, whatever the input.

pub mod text;
pub mod syntax;
pub mod records;
pub mod store;
pub mod kinds;
pub mod rules;
pub mod extract;
pub mod traverse;
pub mod extractors;
pub mod parse;
pub mod index;
pub mod directory;
pub mod laws;
pub mod print_blocks;
