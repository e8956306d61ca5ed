//! Source positions, interned names and the span-tagged syntax tree of the
//! dust language front end.

pub mod intern;
pub mod span;
pub mod syntax;
