//! Foundational data layer for an S-expression rule engine: a string
//! interner that hands out stable small identifiers, and the value and
//! expression model built on those identifiers.

pub mod context;
pub mod expr;
pub mod intern;
pub mod value;

pub use context::Context;
pub use expr::BuiltinFunction;
pub use expr::Expr;
pub use intern::StringId;
pub use intern::StringInterner;
pub use value::Value;
pub use value::ValueType;
