//! A fluent builder for textual `select` and `update` statements.
//!
//! Every value that can appear in a statement implements [`expression::Expression`]:
//! it has one canonical text, given by a spec function, and `build`
//! is proved to return exactly that text. Statements nest: a [`select::Select`]
//! is itself an expression and can stand wherever a table is expected.
pub mod decimal;
pub mod expression;
pub mod join;
pub mod laws;
pub mod predicate;
pub mod select;
pub mod update;

pub use expression::{try_build, BuildError, Expression};
pub use select::select;
pub use update::update;
