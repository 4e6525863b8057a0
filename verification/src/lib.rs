//! Builder generation engine.
//!
//! Given a structural description of a record type (a schema), this library
//! classifies each field's shape and derives the pieces of an auxiliary
//! builder type: one storage slot per field, an initializer, setters, and a
//! finalizer that validates required-field presence. The schema is plain
//! data; obtaining it from syntax and rendering the derived pieces back into
//! source text are the surrounding toolchain's business.

pub mod builder;
pub mod directive;
pub mod field;
pub mod laws;
pub mod schema;
pub mod shape;
pub mod synth;
