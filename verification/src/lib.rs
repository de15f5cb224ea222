//! A compiler for a small language that declares trees of widgets. A block
//! of the language is read into a tree of [`widgets::Widget`]s, and the tree
//! is lowered to code in several streams: the statements that build the
//! widgets, those that assign their properties, those that connect their
//! signal handlers, and the code that reports what could not be read.
//!
//! Around that stand the passes over the impl that holds a view
//! ([`visitors`]), the language of menus ([`menu`]), and a map of components
//! that are attached to one parent widget ([`factory`]).
//!
//! Tokens come from `proc_macro2`, and the pieces of Rust inside a block are
//! delimited by `syn` ([`lex`], [`syntax`]). What is stated of them is
//! believed, everything else is proved; [`laws`] holds what follows from the
//! contracts for every input.

pub mod error;
pub mod factory;
pub mod host;
pub mod laws;
pub mod lex;
pub mod menu;
pub mod names;
pub mod syntax;
pub mod text;
pub mod tokens;
pub mod util;
pub mod view;
pub mod visitors;
pub mod widgets;
