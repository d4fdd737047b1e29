//! A curve bound to the asset that it governs.

use vstd::prelude::*;
use crate::abi::{
    abi_curve_encoding, abi_encode_curve, curve_encoding_size, encoding_size_limit,
    law_curve_encoding_len, max_encoding_size,
};
use crate::asset_type::AssetType;
use crate::curve_flags::{flags_through_abi, law_fields_read_back, CurveFlags};
use crate::curve_type::{word_values, CurveParameters, CurveType, CurveView};
use crate::error::EncodingError;
use crate::evaluation_type::EvaluationType;
use crate::flag_layout::{asset_type_field, curve_type_field, evaluation_type_field};
use crate::primitives::{zero_address, Address, I256, U256};

verus! {

/// One curve bound to one asset: the asset's identity, the flag word and the
/// parameter vector. The identity is neither checked nor interpreted here.
#[derive(Clone, Debug, PartialEq, Eq, Hash)]
pub struct AssetBasedIntentCurve {
    asset_id: U256,
    asset_contract: Address,
    flags: u128,
    params: Vec<I256>,
}

/// What an [`AssetBasedIntentCurve`] holds, as mathematical values.
pub struct AssetBasedIntentCurveView {
    /// The id of the asset within its contract.
    pub asset_id: int,
    /// The 20 bytes of the address of the asset's contract.
    pub asset_contract: Seq<u8>,
    /// The flag word.
    pub flags: u128,
    /// The parameter vector, as signed numbers.
    pub params: Seq<int>,
}

impl View for AssetBasedIntentCurve {
    type V = AssetBasedIntentCurveView;

    closed spec fn view(&self) -> AssetBasedIntentCurveView {
        AssetBasedIntentCurveView {
            asset_id: self.asset_id@,
            asset_contract: self.asset_contract@,
            flags: self.flags,
            params: word_values(self.params@),
        }
    }
}

/// The curve that [`AssetBasedIntentCurve::build`] makes: the flag word packs
/// the asset type, the shape of `curve` and the evaluation type, and the
/// parameters are those of `curve` in the chain's order.
pub open spec fn built_curve(
    asset_contract: Seq<u8>,
    asset_id: int,
    asset_type: AssetType,
    curve: CurveView,
    evaluation_type: EvaluationType,
) -> AssetBasedIntentCurveView {
    AssetBasedIntentCurveView {
        asset_id,
        asset_contract,
        flags: (CurveFlags { asset_type, curve_type: curve.curve_type, evaluation_type })
            .spec_word(),
        params: curve.values,
    }
}

/// The release curve of the given asset: a release is unconditional, so its
/// evaluation type is always absolute.
pub open spec fn release_curve(
    asset_contract: Seq<u8>,
    asset_id: int,
    asset_type: AssetType,
    curve: CurveView,
) -> AssetBasedIntentCurveView {
    built_curve(asset_contract, asset_id, asset_type, curve, EvaluationType::ABSOLUTE)
}

/// The requirement curve of the given asset, read as the caller says.
pub open spec fn requirement_curve(
    asset_contract: Seq<u8>,
    asset_id: int,
    asset_type: AssetType,
    curve: CurveView,
    evaluation_type: EvaluationType,
) -> AssetBasedIntentCurveView {
    built_curve(asset_contract, asset_id, asset_type, curve, evaluation_type)
}

impl AssetBasedIntentCurveView {
    /// The bytes of the curve as the chain reads it.
    pub open spec fn encoding(self) -> Seq<u8> {
        abi_curve_encoding(self.asset_id, self.asset_contract, self.flags, self.params)
    }

    /// The number of bytes of the curve's encoding.
    pub open spec fn encoding_size(self) -> nat {
        curve_encoding_size(self.params.len())
    }

    /// The encoder can lay out the curve.
    pub open spec fn encodable(self) -> bool {
        self.encoding_size() <= max_encoding_size()
    }

    /// The number of bytes of the curve's encoding, if the encoder can lay
    /// it out.
    pub open spec fn encodable_size(self) -> Option<u64> {
        if self.encodable() {
            Some(self.encoding_size() as u64)
        } else {
            None
        }
    }

    /// The flag word names an asset type, a curve type and an evaluation
    /// type that exist, leaves the unused bits clear, and the parameter
    /// vector has the length that the curve type takes.
    pub open spec fn well_formed(self) -> bool {
        exists|asset_type: AssetType, curve_type: CurveType, evaluation_type: EvaluationType|
            {
                &&& #[trigger] (CurveFlags { asset_type, curve_type, evaluation_type }).spec_word()
                    == self.flags
                &&& self.params.len() == curve_type.spec_parameter_count()
            }
    }
}

/// A well-formed curve has at most four parameters, so the encoder can lay
/// it out.
pub proof fn law_well_formed_is_encodable(curve: AssetBasedIntentCurveView)
    requires
        curve.well_formed(),
    ensures
        curve.params.len() <= 4,
        curve.encodable(),
{
}

/// In the flag word of a built curve the chain finds the asset type, the
/// shape of the curve and the evaluation type that it was built with. Built
/// from a well-formed curve, it is well formed.
pub proof fn law_built_curve_reads_back(
    asset_contract: Seq<u8>,
    asset_id: int,
    asset_type: AssetType,
    curve: CurveView,
    evaluation_type: EvaluationType,
)
    ensures
        ({
            let built = built_curve(asset_contract, asset_id, asset_type, curve, evaluation_type);
            &&& asset_type_field(built.flags) == asset_type.spec_discriminant()
            &&& curve_type_field(built.flags) == curve.curve_type.spec_discriminant()
            &&& evaluation_type_field(built.flags) == evaluation_type.spec_discriminant()
            &&& curve.well_formed() ==> built.well_formed()
        }),
{
    law_fields_read_back(
        asset_type.spec_discriminant(),
        curve.curve_type.spec_discriminant(),
        evaluation_type.spec_discriminant(),
    );
}

/// Whatever asset and curve a release is built with, the chain finds the
/// evaluation type absolute in its flag word. A requirement carries the
/// evaluation type that its caller chose.
pub proof fn law_release_is_absolute(
    asset_contract: Seq<u8>,
    asset_id: int,
    asset_type: AssetType,
    curve: CurveView,
    evaluation_type: EvaluationType,
)
    ensures
        evaluation_type_field(release_curve(asset_contract, asset_id, asset_type, curve).flags)
            == EvaluationType::ABSOLUTE.spec_discriminant(),
        evaluation_type_field(
            requirement_curve(asset_contract, asset_id, asset_type, curve, evaluation_type).flags,
        ) == evaluation_type.spec_discriminant(),
{
    law_built_curve_reads_back(
        asset_contract,
        asset_id,
        asset_type,
        curve,
        EvaluationType::ABSOLUTE,
    );
    law_built_curve_reads_back(asset_contract, asset_id, asset_type, curve, evaluation_type);
}

impl Default for AssetBasedIntentCurve {
    /// The curve of asset 0 of the zero address, with the flag word 0 and no
    /// parameters.
    fn default() -> (curve: AssetBasedIntentCurve)
        ensures
            curve@ == (AssetBasedIntentCurveView {
                asset_id: 0,
                asset_contract: zero_address(),
                flags: 0,
                params: Seq::empty(),
            }),
    {
        let params: Vec<I256> = Vec::new();
        assert(word_values(params@) =~= Seq::<int>::empty());
        AssetBasedIntentCurve::new(U256::zero(), Address::zero(), 0, params)
    }
}

impl AssetBasedIntentCurve {
    /// The curve with exactly the given parts. Neither the flag word nor the
    /// length of the vector is looked at.
    pub fn new(
        asset_id: U256,
        asset_contract: Address,
        flags: u128,
        params: Vec<I256>,
    ) -> (curve: AssetBasedIntentCurve)
        ensures
            curve@ == (AssetBasedIntentCurveView {
                asset_id: asset_id@,
                asset_contract: asset_contract@,
                flags,
                params: word_values(params@),
            }),
    {
        AssetBasedIntentCurve { asset_id, asset_contract, flags, params }
    }

    /// Builds the curve of an asset from typed parts: packs the flag word
    /// and lays out the parameter vector.
    pub fn build(
        asset_contract: Address,
        asset_id: U256,
        asset_type: AssetType,
        curve_parameters: CurveParameters,
        evaluation_type: EvaluationType,
    ) -> (curve: AssetBasedIntentCurve)
        ensures
            curve@ == built_curve(
                asset_contract@,
                asset_id@,
                asset_type,
                curve_parameters@,
                evaluation_type,
            ),
            curve@.well_formed(),
            curve@.encodable(),
    {
        let flags = flags_through_abi(
            CurveFlags::new(asset_type, curve_parameters.get_curve_type(), evaluation_type),
        );
        AssetBasedIntentCurve::new(asset_id, asset_contract, flags, curve_parameters.to_vector())
    }

    /// Builds a release curve: value flows out once the segment is reached,
    /// so the evaluation type is absolute.
    pub fn release(
        asset_contract: Address,
        asset_id: U256,
        asset_type: AssetType,
        curve_parameters: CurveParameters,
    ) -> (curve: AssetBasedIntentCurve)
        ensures
            curve@ == release_curve(asset_contract@, asset_id@, asset_type, curve_parameters@),
            curve@.well_formed(),
            curve@.encodable(),
    {
        AssetBasedIntentCurve::build(
            asset_contract,
            asset_id,
            asset_type,
            curve_parameters,
            EvaluationType::ABSOLUTE,
        )
    }

    /// Builds a requirement curve: value must be there, read as
    /// `evaluation_type` says.
    pub fn requirement(
        asset_contract: Address,
        asset_id: U256,
        asset_type: AssetType,
        curve_parameters: CurveParameters,
        evaluation_type: EvaluationType,
    ) -> (curve: AssetBasedIntentCurve)
        ensures
            curve@ == requirement_curve(
                asset_contract@,
                asset_id@,
                asset_type,
                curve_parameters@,
                evaluation_type,
            ),
            curve@.well_formed(),
            curve@.encodable(),
    {
        AssetBasedIntentCurve::build(
            asset_contract,
            asset_id,
            asset_type,
            curve_parameters,
            evaluation_type,
        )
    }

    /// The number of bytes of the curve's encoding, unless it is more than
    /// the encoder can lay out.
    pub fn encoding_size(&self) -> (size: Option<u64>)
        ensures
            size == self@.encodable_size(),
    {
        let limit = encoding_size_limit();
        let count = self.params.len() as u64;
        if count > (limit - 160) / 32 {
            None
        } else {
            Some(160 + 32 * count)
        }
    }

    /// The curve as the chain reads it: the ABI encoding of the tuple of its
    /// four parts. A curve whose encoding would be too large is refused.
    pub fn encode(&self) -> (encoded: Result<Vec<u8>, EncodingError>)
        ensures
            self@.encodable() ==> encoded is Ok && encoded->Ok_0@ == self@.encoding(),
            self@.encodable() ==> encoded->Ok_0@.len() == self@.encoding_size(),
            !self@.encodable() ==> encoded == Err::<Vec<u8>, EncodingError>(
                EncodingError::EncodingTooLarge,
            ),
    {
        proof {
            law_curve_encoding_len(
                self.asset_id@,
                self.asset_contract@,
                self.flags,
                word_values(self.params@),
            );
        }
        match self.encoding_size() {
            Some(_) => Ok(
                abi_encode_curve(self.asset_id, self.asset_contract, self.flags, &self.params),
            ),
            None => Err(EncodingError::EncodingTooLarge),
        }
    }

    /// The id of the asset within its contract.
    pub fn asset_id(&self) -> (asset_id: U256)
        ensures
            asset_id@ == self@.asset_id,
    {
        self.asset_id
    }

    /// The address of the asset's contract.
    pub fn asset_contract(&self) -> (asset_contract: Address)
        ensures
            asset_contract@ == self@.asset_contract,
    {
        self.asset_contract
    }

    /// The flag word.
    pub fn flags(&self) -> (flags: u128)
        ensures
            flags == self@.flags,
    {
        self.flags
    }

    /// The parameter vector.
    pub fn params(&self) -> (params: &Vec<I256>)
        ensures
            word_values(params@) == self@.params,
    {
        &self.params
    }
}

} // verus!
