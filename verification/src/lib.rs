//! Catalog of the function-like constructs of a compilation unit.
//!
//! The pass walks the typed intermediate representation of a program,
//! opens a record at every item, trait item or impl item that owns a function
//! body, raises the record's flag at every block marked unsafe, and closes the
//! record when the walk leaves the node again.

pub mod catalog;
pub mod driver;
pub mod hir;
pub mod syntax;
