//! Error of the conversions between the API types.

use crate::text::owned;
use vstd::prelude::*;

verus! {

/// Error from a `TryFrom` or `FromStr` implementation.
#[derive(Debug)]
pub struct ConversionError(pub String);

impl View for ConversionError {
    type V = Seq<char>;

    /// The message of the error.
    open spec fn view(&self) -> Seq<char> {
        self.0@
    }
}

impl ConversionError {
    /// An error with the given message.
    pub fn new(message: &str) -> (r: Self)
        ensures
            r@ == message@,
    {
        ConversionError(owned(message))
    }

    /// An error that takes over the given message.
    pub fn from_message(message: String) -> (r: Self)
        ensures
            r@ == message@,
    {
        ConversionError(message)
    }

    /// The message of the error (what `Display` shows).
    pub fn to_string(&self) -> (r: String)
        ensures
            r@ == self@,
    {
        self.0.clone()
    }
}

} // verus!
