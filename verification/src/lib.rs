//! Conversion of YAML text into dynamically typed values.
//!
//! [`convert`] parses a text as one YAML document and maps the document,
//! node by node, to a [`DynamicValue`]: null, boolean, integer, float,
//! string, array or table. [`parse`] and [`to_dynamic`] are its two halves.

pub mod convert;
pub mod document;
pub mod dynamic;
pub mod error;
pub mod laws;
pub mod parser;
pub mod structure;

pub use crate::convert::convert;
pub use crate::document::YamlValue;
pub use crate::dynamic::DynamicValue;
pub use crate::error::ConversionError;
pub use crate::parser::parse;
pub use crate::structure::to_dynamic;
