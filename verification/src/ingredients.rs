//! The ingredient variants: each one is a self-contained rule, attached to
//! one row column, for computing dependencies and for converting a field
//! value between the two identifier spaces.

pub mod circular;
pub mod ingredient;
pub mod matcher;
pub mod morph;
pub mod reference;
pub mod raw;
pub mod value;
