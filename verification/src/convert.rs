//! The conversion itself: YAML text in, dynamic value out.

use vstd::prelude::*;
use crate::dynamic::DynamicTree;
use crate::dynamic::DynamicValue;
use crate::error::ConversionError;
use crate::parser::parse;
use crate::parser::yaml_document;
use crate::structure::dynamic_of;
use crate::structure::to_dynamic;

verus! {

/// What converting a text yields: the dynamic value of the document that
/// the parser reads from it, or the parser's diagnostic where it reads
/// none.
pub open spec fn converted(text: Seq<char>) -> Result<DynamicTree, Seq<char>> {
    match yaml_document(text) {
        Ok(doc) => Ok(dynamic_of(doc)),
        Err(message) => Err(message),
    }
}

/// Converts YAML text into a dynamic value.
///
/// Fails with [`ConversionError::ParseFailure`] exactly when the text is
/// not well-formed YAML, and then carries the parser's diagnostic.
pub fn convert(input: &str) -> (r: Result<DynamicValue, ConversionError>)
    ensures
        match r {
            Ok(value) => converted(input@) == Ok::<DynamicTree, Seq<char>>(value@),
            Err(error) => converted(input@) == Err::<DynamicTree, Seq<char>>(error@),
        },
{
    match parse(input) {
        Ok(doc) => Ok(to_dynamic(&doc)),
        Err(error) => Err(error),
    }
}

} // verus!
