//! A declarative row-transformation engine: a `Recipe` describes, per column,
//! how to turn a stored field value into a portable serialized value (and
//! back), while discovering and remapping references to other entities
//! through an injected `BookKeeper`.

pub mod book_keeper;
pub mod config;
pub mod contracts;
pub mod ingredients;
pub mod recipe;
pub mod tools;
