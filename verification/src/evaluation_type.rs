//! How the value of a requirement curve is read.

use vstd::prelude::*;

verus! {

/// How the evaluated value of a requirement curve is interpreted.
#[allow(non_camel_case_types)]
#[derive(Clone, Copy, Debug, PartialEq, Eq, Hash, Structural)]
pub enum EvaluationType {
    /// The value is the amount that must be there.
    ABSOLUTE,
    /// The value is a change against the state before the intent ran.
    RELATIVE,
}

impl EvaluationType {
    /// The number that stands for the evaluation type in a flag word.
    pub open spec fn spec_discriminant(self) -> u128 {
        match self {
            EvaluationType::ABSOLUTE => 0,
            EvaluationType::RELATIVE => 1,
        }
    }

    /// The number that stands for the evaluation type in a flag word.
    #[verifier::when_used_as_spec(spec_discriminant)]
    pub fn discriminant(self) -> (number: u128)
        ensures
            number == self.spec_discriminant(),
    {
        match self {
            EvaluationType::ABSOLUTE => 0,
            EvaluationType::RELATIVE => 1,
        }
    }
}

} // verus!
