//! Packing an asset type, a curve type and an evaluation type into the flag
//! word of a curve.
//!
//! Only packing is done here. The chain unpacks; what it will find is stated
//! by the field readers of [`crate::flag_layout`], which are ghost code:
//! nothing here unpacks at run time.

use vstd::prelude::*;
use crate::abi::{abi_word, decode_word, encode_word, law_word_round_trip};
use crate::asset_type::AssetType;
use crate::curve_type::CurveType;
use crate::error::EncodingError;
use crate::evaluation_type::EvaluationType;
use crate::flag_layout::{
    asset_type_field, curve_type_field, discriminants_fit, evaluation_type_field, flag_word,
    ASSET_TYPE_LIMIT, ASSET_TYPE_OFFSET, CURVE_TYPE_LIMIT, CURVE_TYPE_OFFSET,
    EVALUATION_TYPE_LIMIT, EVALUATION_TYPE_OFFSET,
};

verus! {

/// Packs three raw discriminants into a flag word. A discriminant that does
/// not fit its field is refused: it would spill into the neighbouring field.
pub fn encode(asset_type: u128, curve_type: u128, evaluation_type: u128) -> (flags: Result<
    u128,
    EncodingError,
>)
    ensures
        discriminants_fit(asset_type, curve_type, evaluation_type) ==> flags == Ok::<
            u128,
            EncodingError,
        >(flag_word(asset_type, curve_type, evaluation_type)),
        !discriminants_fit(asset_type, curve_type, evaluation_type) ==> flags == Err::<
            u128,
            EncodingError,
        >(EncodingError::DiscriminantTooWide),
{
    if asset_type >= ASSET_TYPE_LIMIT || curve_type >= CURVE_TYPE_LIMIT || evaluation_type
        >= EVALUATION_TYPE_LIMIT {
        return Err(EncodingError::DiscriminantTooWide);
    }
    Ok(
        (asset_type << ASSET_TYPE_OFFSET) | (curve_type << CURVE_TYPE_OFFSET) | (evaluation_type
            << EVALUATION_TYPE_OFFSET),
    )
}

/// The same three discriminants always give the same flag word: the word
/// depends on nothing else.
pub proof fn law_encode_deterministic(
    asset_type: u128,
    curve_type: u128,
    evaluation_type: u128,
    asset_type_again: u128,
    curve_type_again: u128,
    evaluation_type_again: u128,
)
    requires
        asset_type == asset_type_again,
        curve_type == curve_type_again,
        evaluation_type == evaluation_type_again,
    ensures
        flag_word(asset_type, curve_type, evaluation_type) == flag_word(
            asset_type_again,
            curve_type_again,
            evaluation_type_again,
        ),
        discriminants_fit(asset_type, curve_type, evaluation_type) == discriminants_fit(
            asset_type_again,
            curve_type_again,
            evaluation_type_again,
        ),
{
}

/// A reader of the layout finds in a flag word the three discriminants that
/// were packed into it, and nothing in the unused bits.
pub proof fn law_fields_read_back(asset_type: u128, curve_type: u128, evaluation_type: u128)
    requires
        discriminants_fit(asset_type, curve_type, evaluation_type),
    ensures
        asset_type_field(flag_word(asset_type, curve_type, evaluation_type)) == asset_type,
        curve_type_field(flag_word(asset_type, curve_type, evaluation_type)) == curve_type,
        evaluation_type_field(flag_word(asset_type, curve_type, evaluation_type))
            == evaluation_type,
        flag_word(asset_type, curve_type, evaluation_type) <= 0xffff,
        flag_word(asset_type, curve_type, evaluation_type) == asset_type * 256 + curve_type * 4
            + evaluation_type,
{
    assert({
        &&& asset_type_field(flag_word(asset_type, curve_type, evaluation_type)) == asset_type
        &&& curve_type_field(flag_word(asset_type, curve_type, evaluation_type)) == curve_type
        &&& evaluation_type_field(flag_word(asset_type, curve_type, evaluation_type))
            == evaluation_type
        &&& flag_word(asset_type, curve_type, evaluation_type) <= 0xffffu128
        &&& flag_word(asset_type, curve_type, evaluation_type) == asset_type * 256 + curve_type
            * 4 + evaluation_type
    }) by (bit_vector)
        requires
            asset_type < ASSET_TYPE_LIMIT,
            curve_type < CURVE_TYPE_LIMIT,
            evaluation_type < EVALUATION_TYPE_LIMIT,
    ;
}

/// Two triples of discriminants that fit their fields and differ anywhere
/// give different flag words.
pub proof fn law_encode_injective(
    asset_type: u128,
    curve_type: u128,
    evaluation_type: u128,
    other_asset_type: u128,
    other_curve_type: u128,
    other_evaluation_type: u128,
)
    requires
        discriminants_fit(asset_type, curve_type, evaluation_type),
        discriminants_fit(other_asset_type, other_curve_type, other_evaluation_type),
        asset_type != other_asset_type || curve_type != other_curve_type || evaluation_type
            != other_evaluation_type,
    ensures
        flag_word(asset_type, curve_type, evaluation_type) != flag_word(
            other_asset_type,
            other_curve_type,
            other_evaluation_type,
        ),
{
    law_fields_read_back(asset_type, curve_type, evaluation_type);
    law_fields_read_back(other_asset_type, other_curve_type, other_evaluation_type);
}

/// The three things that a flag word says of a curve.
#[derive(Clone, Copy, Debug, PartialEq, Eq, Hash)]
pub struct CurveFlags {
    /// What kind of asset the curve governs.
    pub asset_type: AssetType,
    /// The shape of the curve.
    pub curve_type: CurveType,
    /// How the value of the curve is read.
    pub evaluation_type: EvaluationType,
}

impl CurveFlags {
    /// The flags of a curve of the given asset, shape and evaluation.
    pub fn new(
        asset_type: AssetType,
        curve_type: CurveType,
        evaluation_type: EvaluationType,
    ) -> (flags: CurveFlags)
        ensures
            flags.asset_type == asset_type,
            flags.curve_type == curve_type,
            flags.evaluation_type == evaluation_type,
    {
        CurveFlags { asset_type, curve_type, evaluation_type }
    }

    /// The flag word of these flags.
    pub open spec fn spec_word(&self) -> u128 {
        flag_word(
            self.asset_type.spec_discriminant(),
            self.curve_type.spec_discriminant(),
            self.evaluation_type.spec_discriminant(),
        )
    }

    /// The flag word of these flags.
    #[verifier::when_used_as_spec(spec_word)]
    pub fn word(&self) -> (word: u128)
        ensures
            word == self.spec_word(),
    {
        let packed = encode(
            self.asset_type.discriminant(),
            self.curve_type.discriminant(),
            self.evaluation_type.discriminant(),
        );
        packed.unwrap()
    }

    /// The flag word as the ABI word that goes to the chain: 32 bytes,
    /// big-endian.
    pub fn encode(&self) -> (bytes: Vec<u8>)
        ensures
            bytes@ == abi_word(self.spec_word()),
            bytes@.len() == 32,
    {
        encode_word(self.word())
    }
}

/// The flag word of a curve, taken through its ABI word and back, as a
/// client of the chain's codec gets it. The trip changes nothing.
pub fn flags_through_abi(flags: CurveFlags) -> (word: u128)
    ensures
        word == flags.spec_word(),
{
    let bytes = flags.encode();
    proof {
        law_word_round_trip(flags.spec_word());
        assert(bytes@.subrange(0, 32) =~= bytes@);
    }
    decode_word(&bytes).unwrap()
}

} // verus!
