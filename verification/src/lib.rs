//! Composite-key schema compiler and encoder for single-table key-value
//! storage: per-entity declarations are resolved into an immutable schema,
//! and entity instances are flattened into a named-attribute map of strings.

use vstd::prelude::*;

pub mod builder;
pub mod decl;
pub mod encode;
pub mod entities;
pub mod error;
pub mod keys;
pub mod laws;
pub mod repo;
pub mod text;
pub mod traits;
pub mod validate;

verus! {

/// The fixed separator joining the parts of a composite value.
pub const DELIMITER: char = '#';

} // verus!
