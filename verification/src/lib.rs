//! Loading plugin modules that export procedures on token trees, and
//! dispatching to those procedures by name.
//!
//! A module is a shared library that exports, under a symbol whose name
//! carries a fixed marker, a registry of the procedures it offers. This crate
//! holds the rules: [`symbol`] finds the registrar symbol in the bytes of a
//! binary, with [`image`] for what is read of the binary and [`entry`],
//! [`sections`] and [`trie`] for telling a binary that can be read from one
//! whose numbers do not allow it,
//! [`loader`] says how loading proceeds and what its failures are,
//! [`registry`] and [`expander`] hold what was loaded and pick the procedure
//! that answers to a name, together with the streams it is to receive.
//! Reading files, calling the native loader and running a procedure are
//! left to the caller.

pub mod entry;
pub mod expander;
pub mod image;
pub mod loader;
pub mod registry;
pub mod sections;
pub mod symbol;
pub mod tokens;
pub mod trie;

pub use crate::expander::Expander;
