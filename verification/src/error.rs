//! The ways in which an expansion is refused.

use vstd::prelude::*;
use vstd::string::StringExecFns;

verus! {

/// Why a function definition was not expanded. Every refusal is final for
/// the one definition it concerns.
#[derive(Clone, Copy, Debug, PartialEq, Eq, Structural)]
pub enum ExpandError {
    /// The naming directive is not a comma-separated list of paths.
    MalformedDirective,
    /// The naming directive names more than one path.
    TooManyNames,
    /// The one path of the naming directive is not a bare identifier.
    NotAnIdentifier,
    /// The function declares a `self` parameter.
    ReceiverNotSupported,
}

impl ExpandError {
    /// The text of the message for each refusal.
    pub open spec fn message_text(self) -> Seq<char> {
        match self {
            ExpandError::MalformedDirective => "expected only a punctuated path"@,
            ExpandError::TooManyNames =>
                "Expected exactly one for struct name #[structify(StructName)]"@,
            ExpandError::NotAnIdentifier => "expected a single identifier for the struct name"@,
            ExpandError::ReceiverNotSupported => "Receiver arguments are not supported"@,
        }
    }

    /// A message for the person who wrote the definition; it names the
    /// construct that was refused.
    pub fn message(&self) -> (text: String)
        ensures
            text@ == self.message_text(),
    {
        match self {
            ExpandError::MalformedDirective => String::from_str("expected only a punctuated path"),
            ExpandError::TooManyNames => String::from_str(
                "Expected exactly one for struct name #[structify(StructName)]",
            ),
            ExpandError::NotAnIdentifier => String::from_str(
                "expected a single identifier for the struct name",
            ),
            ExpandError::ReceiverNotSupported => String::from_str(
                "Receiver arguments are not supported",
            ),
        }
    }
}

} // verus!
