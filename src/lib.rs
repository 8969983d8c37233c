//! Validation of fixed-layout records whose fields all share one element type,
//! and generation of the conversions that treat such a record as an array or a
//! slice of that type.
pub mod description;
pub mod validate;
pub mod operation;
pub mod text;
pub mod codegen;
pub mod record;
