//! Conversion between table-format schemas and Arrow schemas.
pub mod arrow_schema;
pub mod arrow_types;
pub mod error;
pub mod schema;
pub mod laws;
