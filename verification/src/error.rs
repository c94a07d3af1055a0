//! The one way in which a conversion fails.

use vstd::prelude::*;

verus! {

/// Why a text could not be converted.
#[derive(Debug)]
pub enum ConversionError {
    /// The text is not well-formed YAML. The message is the parser's
    /// diagnostic.
    ParseFailure(String),
}

impl View for ConversionError {
    type V = Seq<char>;

    /// The message that the error carries.
    open spec fn view(&self) -> Seq<char> {
        match self {
            ConversionError::ParseFailure(message) => message@,
        }
    }
}

impl ConversionError {
    /// The message that the error carries.
    pub fn message(&self) -> (text: &str)
        ensures
            text@ == self@,
    {
        match self {
            ConversionError::ParseFailure(message) => message.as_str(),
        }
    }
}

impl Clone for ConversionError {
    fn clone(&self) -> (copy: Self)
        ensures
            copy@ == self@,
    {
        match self {
            ConversionError::ParseFailure(message) => ConversionError::ParseFailure(
                message.clone(),
            ),
        }
    }
}

impl PartialEq for ConversionError {
    fn eq(&self, other: &Self) -> (r: bool) {
        match (self, other) {
            (ConversionError::ParseFailure(a), ConversionError::ParseFailure(b)) => *a == *b,
        }
    }
}

impl vstd::std_specs::cmp::PartialEqSpecImpl for ConversionError {
    open spec fn obeys_eq_spec() -> bool {
        true
    }

    open spec fn eq_spec(&self, other: &Self) -> bool {
        self@ == other@
    }
}

impl Eq for ConversionError {

}

} // verus!
