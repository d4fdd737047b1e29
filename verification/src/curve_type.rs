//! Value curves and their parameters.
//!
//! A curve says how much of an asset moves or must be there, as a function of
//! the block at which the intent is solved. Nothing here evaluates a curve:
//! the parameters are only put in the order in which the chain reads them.

use vstd::prelude::*;
use crate::error::EncodingError;
use crate::primitives::{twos_complement, I256};

verus! {

/// The shape of a curve. It decides how many parameters the curve has and
/// how the chain reads them.
#[allow(non_camel_case_types)]
#[derive(Clone, Copy, Debug, PartialEq, Eq, Hash, Structural)]
pub enum CurveType {
    /// The same value at every block.
    CONSTANT,
    /// A line, capped at a largest input.
    LINEAR,
    /// A power curve, capped at a largest input.
    EXPONENTIAL,
}

impl CurveType {
    /// The number that stands for the curve type in a flag word.
    pub open spec fn spec_discriminant(self) -> u128 {
        match self {
            CurveType::CONSTANT => 0,
            CurveType::LINEAR => 1,
            CurveType::EXPONENTIAL => 2,
        }
    }

    /// The number that stands for the curve type in a flag word.
    #[verifier::when_used_as_spec(spec_discriminant)]
    pub fn discriminant(self) -> (number: u128)
        ensures
            number == self.spec_discriminant(),
    {
        match self {
            CurveType::CONSTANT => 0,
            CurveType::LINEAR => 1,
            CurveType::EXPONENTIAL => 2,
        }
    }

    /// The length of the parameter vector of a curve of this type.
    pub open spec fn spec_parameter_count(self) -> nat {
        match self {
            CurveType::CONSTANT => 1,
            CurveType::LINEAR => 3,
            CurveType::EXPONENTIAL => 4,
        }
    }

    /// The length of the parameter vector of a curve of this type.
    pub fn parameter_count(self) -> (count: usize)
        ensures
            count == self.spec_parameter_count(),
    {
        match self {
            CurveType::CONSTANT => 1,
            CurveType::LINEAR => 3,
            CurveType::EXPONENTIAL => 4,
        }
    }
}

/// The curve `f(x) = b`.
#[derive(Clone, Copy, Debug, PartialEq, Eq, Hash)]
pub struct ConstantCurveParameters {
    /// The value of the curve.
    pub b: I256,
}

impl ConstantCurveParameters {
    /// The constant curve with value `b`.
    pub fn new(b: I256) -> (parameters: ConstantCurveParameters)
        ensures
            parameters.b == b,
    {
        ConstantCurveParameters { b }
    }
}

/// The curve `f(x) = m * x + b`, with `x` capped at `max`.
#[derive(Clone, Copy, Debug, PartialEq, Eq, Hash)]
pub struct LinearCurveParameters {
    /// The slope.
    pub m: I256,
    /// The value at `x = 0`.
    pub b: I256,
    /// The largest `x` that the curve is evaluated at.
    pub max: I256,
}

impl LinearCurveParameters {
    /// The linear curve with slope `m`, offset `b` and cap `max`.
    pub fn new(m: I256, b: I256, max: I256) -> (parameters: LinearCurveParameters)
        ensures
            parameters.m == m,
            parameters.b == b,
            parameters.max == max,
    {
        LinearCurveParameters { m, b, max }
    }
}

/// The curve `f(x) = m * x^e + b`, with `x` capped at `max`.
#[derive(Clone, Copy, Debug, PartialEq, Eq, Hash)]
pub struct ExponentialCurveParameters {
    /// The factor of the power.
    pub m: I256,
    /// The value at `x = 0`.
    pub b: I256,
    /// The exponent.
    pub e: I256,
    /// The largest `x` that the curve is evaluated at.
    pub max: I256,
}

impl ExponentialCurveParameters {
    /// The power curve with factor `m`, offset `b`, exponent `e` and cap
    /// `max`.
    pub fn new(m: I256, b: I256, e: I256, max: I256) -> (parameters: ExponentialCurveParameters)
        ensures
            parameters.m == m,
            parameters.b == b,
            parameters.e == e,
            parameters.max == max,
    {
        ExponentialCurveParameters { m, b, e, max }
    }
}

/// A curve of one of the shapes that the chain can evaluate.
#[derive(Clone, Copy, Debug, PartialEq, Eq, Hash)]
pub enum CurveParameters {
    Constant(ConstantCurveParameters),
    Linear(LinearCurveParameters),
    Exponential(ExponentialCurveParameters),
}

/// The numbers that a sequence of signed words stands for.
pub open spec fn word_values(words: Seq<I256>) -> Seq<int> {
    words.map_values(|word: I256| word@)
}

/// A curve as the chain sees it: its shape and its parameter vector, as
/// signed numbers in the order in which the chain reads them.
pub struct CurveView {
    /// The shape of the curve.
    pub curve_type: CurveType,
    /// The parameter vector.
    pub values: Seq<int>,
}

/// The curve `f(x) = b`: the vector `[b]`.
pub open spec fn constant_curve(b: int) -> CurveView {
    CurveView { curve_type: CurveType::CONSTANT, values: seq![b] }
}

/// The curve `f(x) = m * x + b` capped at `max`: the vector `[m, b, max]`.
pub open spec fn linear_curve(m: int, b: int, max: int) -> CurveView {
    CurveView { curve_type: CurveType::LINEAR, values: seq![m, b, max] }
}

/// The curve `f(x) = m * x^e + b` capped at `max`: the vector
/// `[m, b, e, max]`.
pub open spec fn exponential_curve(m: int, b: int, e: int, max: int) -> CurveView {
    CurveView { curve_type: CurveType::EXPONENTIAL, values: seq![m, b, e, max] }
}

impl CurveView {
    /// The vector has the length that the shape takes.
    pub open spec fn well_formed(self) -> bool {
        self.values.len() == self.curve_type.spec_parameter_count()
    }
}

impl View for CurveParameters {
    type V = CurveView;

    open spec fn view(&self) -> CurveView {
        match self {
            CurveParameters::Constant(p) => constant_curve(p.b@),
            CurveParameters::Linear(p) => linear_curve(p.m@, p.b@, p.max@),
            CurveParameters::Exponential(p) => exponential_curve(p.m@, p.b@, p.e@, p.max@),
        }
    }
}

impl CurveParameters {
    /// The shape of the curve.
    pub open spec fn spec_curve_type(&self) -> CurveType {
        match self {
            CurveParameters::Constant(_) => CurveType::CONSTANT,
            CurveParameters::Linear(_) => CurveType::LINEAR,
            CurveParameters::Exponential(_) => CurveType::EXPONENTIAL,
        }
    }

    /// The parameter vector of the curve, in the order in which the chain
    /// reads it: `[b]`, `[m, b, max]` or `[m, b, e, max]`.
    pub open spec fn vector(self) -> Seq<I256> {
        match self {
            CurveParameters::Constant(p) => seq![p.b],
            CurveParameters::Linear(p) => seq![p.m, p.b, p.max],
            CurveParameters::Exponential(p) => seq![p.m, p.b, p.e, p.max],
        }
    }

    /// The curve of the given shape whose parameter vector is `vector`, if
    /// the vector has the length that the shape takes.
    pub open spec fn spec_from_vector(curve_type: CurveType, vector: Seq<I256>) -> Option<
        CurveParameters,
    > {
        if vector.len() != curve_type.spec_parameter_count() {
            None
        } else {
            Some(
                match curve_type {
                    CurveType::CONSTANT => CurveParameters::Constant(
                        ConstantCurveParameters { b: vector[0] },
                    ),
                    CurveType::LINEAR => CurveParameters::Linear(
                        LinearCurveParameters { m: vector[0], b: vector[1], max: vector[2] },
                    ),
                    CurveType::EXPONENTIAL => CurveParameters::Exponential(
                        ExponentialCurveParameters {
                            m: vector[0],
                            b: vector[1],
                            e: vector[2],
                            max: vector[3],
                        },
                    ),
                },
            )
        }
    }

    /// The shape of the curve.
    #[verifier::when_used_as_spec(spec_curve_type)]
    pub fn get_curve_type(&self) -> (curve_type: CurveType)
        ensures
            curve_type == self.spec_curve_type(),
    {
        match self {
            CurveParameters::Constant(_) => CurveType::CONSTANT,
            CurveParameters::Linear(_) => CurveType::LINEAR,
            CurveParameters::Exponential(_) => CurveType::EXPONENTIAL,
        }
    }

    /// The parameter vector of the curve, in the order in which the chain
    /// reads it.
    pub fn to_vector(&self) -> (vector: Vec<I256>)
        ensures
            vector@ == self.vector(),
            word_values(vector@) == self@.values,
            vector@.len() == self.spec_curve_type().spec_parameter_count(),
    {
        let mut vector: Vec<I256> = Vec::new();
        match self {
            CurveParameters::Constant(p) => {
                vector.push(p.b);
            },
            CurveParameters::Linear(p) => {
                vector.push(p.m);
                vector.push(p.b);
                vector.push(p.max);
            },
            CurveParameters::Exponential(p) => {
                vector.push(p.m);
                vector.push(p.b);
                vector.push(p.e);
                vector.push(p.max);
            },
        }
        vector
    }

    /// Reads a parameter vector as a curve of the given shape. A vector whose
    /// length is not the one that the shape takes is refused.
    pub fn from_vector(curve_type: CurveType, vector: &Vec<I256>) -> (parameters: Result<
        CurveParameters,
        EncodingError,
    >)
        ensures
            parameters == match CurveParameters::spec_from_vector(curve_type, vector@) {
                Some(curve) => Ok::<CurveParameters, EncodingError>(curve),
                None => Err::<CurveParameters, EncodingError>(EncodingError::MalformedParameters),
            },
    {
        if vector.len() != curve_type.parameter_count() {
            return Err(EncodingError::MalformedParameters);
        }
        match curve_type {
            CurveType::CONSTANT => Ok(
                CurveParameters::Constant(ConstantCurveParameters { b: vector[0] }),
            ),
            CurveType::LINEAR => Ok(
                CurveParameters::Linear(
                    LinearCurveParameters { m: vector[0], b: vector[1], max: vector[2] },
                ),
            ),
            CurveType::EXPONENTIAL => Ok(
                CurveParameters::Exponential(
                    ExponentialCurveParameters {
                        m: vector[0],
                        b: vector[1],
                        e: vector[2],
                        max: vector[3],
                    },
                ),
            ),
        }
    }

    /// The view of a curve is its shape with its vector as numbers, and it is
    /// well formed.
    pub proof fn law_view_is_vector(self)
        ensures
            self@.curve_type == self.spec_curve_type(),
            self@.values == word_values(self.vector()),
            self@.well_formed(),
    {
    }

    /// Reading back the vector of a curve gives the curve.
    pub proof fn law_vector_round_trip(self)
        ensures
            self.vector().len() == self.spec_curve_type().spec_parameter_count(),
            CurveParameters::spec_from_vector(self.spec_curve_type(), self.vector()) == Some(self),
    {
    }

    /// A vector is read as a curve exactly when it has the length that the
    /// shape takes, and the curve read from it has that shape and that
    /// vector.
    pub proof fn law_from_vector(curve_type: CurveType, vector: Seq<I256>)
        ensures
            CurveParameters::spec_from_vector(curve_type, vector) is Some <==> vector.len()
                == curve_type.spec_parameter_count(),
            CurveParameters::spec_from_vector(curve_type, vector) is Some ==> {
                let curve = CurveParameters::spec_from_vector(curve_type, vector)->Some_0;
                &&& curve.spec_curve_type() == curve_type
                &&& curve.vector() == vector
            },
    {
    }

    /// A constant curve with value `v` has a parameter vector of exactly one
    /// entry: the signed 256-bit word that stands for `v`, whose bits are the
    /// two's complement of `v`.
    pub proof fn law_constant_vector(b: I256)
        ensures
            CurveParameters::Constant(ConstantCurveParameters { b }).vector() == seq![b],
            CurveParameters::Constant(ConstantCurveParameters { b })@ == constant_curve(b@),
            constant_curve(b@).values.len() == 1,
            constant_curve(b@).values[0] == b@,
            b.raw@ == twos_complement(b@),
    {
    }
}

} // verus!
