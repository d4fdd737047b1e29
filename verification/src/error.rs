//! The ways in which building an encoding can be refused.

use vstd::prelude::*;

verus! {

/// A violation of the encoding contract. Each one is a programming error of
/// the caller: nothing is built when one is returned.
#[derive(Clone, Copy, Debug, PartialEq, Eq, Hash)]
pub enum EncodingError {
    /// A discriminant does not fit the flag field that the layout allots to it.
    DiscriminantTooWide,
    /// A parameter vector has not the number of entries that its curve type
    /// takes.
    MalformedParameters,
    /// The intent is signed already, so it can no longer change.
    IntentAlreadySigned,
    /// The intent is not signed yet, so it cannot be submitted.
    IntentNotSigned,
    /// The intent was submitted before.
    IntentAlreadySubmitted,
    /// Fewer than 32 bytes were given where a full word is read.
    TruncatedWord,
    /// The encoding would have more bytes than the encoder can lay out.
    EncodingTooLarge,
}

} // verus!
