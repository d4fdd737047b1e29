//! The closed set of segment kinds that an intent is made of.
//!
//! A segment binds the id of the standard that decodes it on chain to what
//! that standard reads: a curve, the bytes of a call, or a nonce. Nothing is
//! checked across segments; the chain does that.

use vstd::prelude::*;
use crate::abi::{abi_encode_u256, be_bytes};
use crate::asset_type::AssetType;
use crate::curve_builder::{
    release_curve, requirement_curve, AssetBasedIntentCurve, AssetBasedIntentCurveView,
};
use crate::curve_type::{CurveParameters, CurveView};
use crate::error::EncodingError;
use crate::evaluation_type::EvaluationType;
use crate::primitives::{zero_address, Address, Bytes, StandardId, U256};
use crate::segment_builder::{AssetBasedIntentSegment, AssetBasedIntentSegmentView};

verus! {

/// What a segment holds, as mathematical values. Every kind carries the 32
/// bytes of its standard's id.
pub enum IntentSegmentView {
    /// Release of a fungible token along a curve.
    Erc20Release { standard_id: Seq<u8>, curve: AssetBasedIntentCurveView },
    /// Release of native value along a curve.
    EthRelease { standard_id: Seq<u8>, curve: AssetBasedIntentCurveView },
    /// Native value that must be there, along a curve.
    EthRequire { standard_id: Seq<u8>, curve: AssetBasedIntentCurveView },
    /// A call made on the sender's behalf.
    Call { standard_id: Seq<u8>, call_data: Seq<u8> },
    /// The nonce that the sender's account must be at.
    SequentialNonce { standard_id: Seq<u8>, nonce: int },
    /// Releases and requirements of any assets around a call.
    AssetBasedIntent { standard_id: Seq<u8>, segment: AssetBasedIntentSegmentView },
}

impl IntentSegmentView {
    /// The bytes that the segment's standard reads: the ABI encoding of the
    /// curve, the bytes of the call as they are, the nonce as one ABI word,
    /// or the ABI encoding of the asset-based segment.
    pub open spec fn payload(self) -> Seq<u8> {
        match self {
            IntentSegmentView::Erc20Release { curve, .. } => curve.encoding(),
            IntentSegmentView::EthRelease { curve, .. } => curve.encoding(),
            IntentSegmentView::EthRequire { curve, .. } => curve.encoding(),
            IntentSegmentView::Call { call_data, .. } => call_data,
            IntentSegmentView::SequentialNonce { nonce, .. } => be_bytes(nonce as nat, 32),
            IntentSegmentView::AssetBasedIntent { segment, .. } => segment.encoding(),
        }
    }

    /// The encoder can lay out the payload. Only the vector of a curve or
    /// the parts of an asset-based segment can be too large for it.
    pub open spec fn encodable(self) -> bool {
        match self {
            IntentSegmentView::Erc20Release { curve, .. } => curve.encodable(),
            IntentSegmentView::EthRelease { curve, .. } => curve.encodable(),
            IntentSegmentView::EthRequire { curve, .. } => curve.encodable(),
            IntentSegmentView::Call { .. } => true,
            IntentSegmentView::SequentialNonce { .. } => true,
            IntentSegmentView::AssetBasedIntent { segment, .. } => segment.encodable(),
        }
    }

    /// The segment as it goes to the chain: the id of its standard and the
    /// bytes that the standard reads.
    pub open spec fn encoding(self) -> (Seq<u8>, Seq<u8>) {
        (self.standard_id(), self.payload())
    }

    /// The id of the standard that decodes the segment.
    pub open spec fn standard_id(self) -> Seq<u8> {
        match self {
            IntentSegmentView::Erc20Release { standard_id, .. } => standard_id,
            IntentSegmentView::EthRelease { standard_id, .. } => standard_id,
            IntentSegmentView::EthRequire { standard_id, .. } => standard_id,
            IntentSegmentView::Call { standard_id, .. } => standard_id,
            IntentSegmentView::SequentialNonce { standard_id, .. } => standard_id,
            IntentSegmentView::AssetBasedIntent { standard_id, .. } => standard_id,
        }
    }
}

/// The segment that releases the token of `erc20_contract` along `curve`.
pub open spec fn erc20_release_segment(
    standard_id: Seq<u8>,
    erc20_contract: Seq<u8>,
    curve: CurveView,
) -> IntentSegmentView {
    IntentSegmentView::Erc20Release {
        standard_id,
        curve: release_curve(erc20_contract, 0, AssetType::ERC20, curve),
    }
}

/// The segment that releases native value along `curve`. Native value has
/// no contract of its own, so the address is the zero address.
pub open spec fn eth_release_segment(standard_id: Seq<u8>, curve: CurveView) -> IntentSegmentView {
    IntentSegmentView::EthRelease {
        standard_id,
        curve: release_curve(zero_address(), 0, AssetType::ETH, curve),
    }
}

/// The segment that requires native value along `curve`, read as
/// `evaluation_type` says.
pub open spec fn eth_require_segment(
    standard_id: Seq<u8>,
    curve: CurveView,
    evaluation_type: EvaluationType,
) -> IntentSegmentView {
    IntentSegmentView::EthRequire {
        standard_id,
        curve: requirement_curve(zero_address(), 0, AssetType::ETH, curve, evaluation_type),
    }
}

/// Release of a fungible token along a curve.
#[derive(Clone, Debug, PartialEq, Eq, Hash)]
pub struct Erc20ReleaseIntentSegment {
    standard_id: StandardId,
    curve: AssetBasedIntentCurve,
}

impl View for Erc20ReleaseIntentSegment {
    type V = IntentSegmentView;

    closed spec fn view(&self) -> IntentSegmentView {
        IntentSegmentView::Erc20Release { standard_id: self.standard_id@, curve: self.curve@ }
    }
}

impl Erc20ReleaseIntentSegment {
    /// The segment that releases the token of `erc20_contract` along the
    /// given curve.
    pub fn new(
        standard_id: StandardId,
        erc20_contract: Address,
        curve_parameters: CurveParameters,
    ) -> (segment: Erc20ReleaseIntentSegment)
        ensures
            segment@ == erc20_release_segment(standard_id@, erc20_contract@, curve_parameters@),
            segment@.encodable(),
    {
        Erc20ReleaseIntentSegment {
            standard_id,
            curve: AssetBasedIntentCurve::release(
                erc20_contract,
                U256::zero(),
                AssetType::ERC20,
                curve_parameters,
            ),
        }
    }

    /// The id of the standard that decodes the segment.
    pub fn standard_id(&self) -> (standard_id: StandardId)
        ensures
            standard_id@ == self@.standard_id(),
    {
        self.standard_id
    }

    /// The release curve.
    pub fn curve(&self) -> (curve: &AssetBasedIntentCurve)
        ensures
            self@ == (IntentSegmentView::Erc20Release {
                standard_id: self@.standard_id(),
                curve: curve@,
            }),
    {
        &self.curve
    }
}

/// Release of native value along a curve.
#[derive(Clone, Debug, PartialEq, Eq, Hash)]
pub struct EthReleaseIntentSegment {
    standard_id: StandardId,
    curve: AssetBasedIntentCurve,
}

impl View for EthReleaseIntentSegment {
    type V = IntentSegmentView;

    closed spec fn view(&self) -> IntentSegmentView {
        IntentSegmentView::EthRelease { standard_id: self.standard_id@, curve: self.curve@ }
    }
}

impl EthReleaseIntentSegment {
    /// The segment that releases native value along the given curve.
    pub fn new(standard_id: StandardId, curve_parameters: CurveParameters) -> (segment:
        EthReleaseIntentSegment)
        ensures
            segment@ == eth_release_segment(standard_id@, curve_parameters@),
            segment@.encodable(),
    {
        EthReleaseIntentSegment {
            standard_id,
            curve: AssetBasedIntentCurve::release(
                Address::zero(),
                U256::zero(),
                AssetType::ETH,
                curve_parameters,
            ),
        }
    }

    /// The id of the standard that decodes the segment.
    pub fn standard_id(&self) -> (standard_id: StandardId)
        ensures
            standard_id@ == self@.standard_id(),
    {
        self.standard_id
    }

    /// The release curve.
    pub fn curve(&self) -> (curve: &AssetBasedIntentCurve)
        ensures
            self@ == (IntentSegmentView::EthRelease {
                standard_id: self@.standard_id(),
                curve: curve@,
            }),
    {
        &self.curve
    }
}

/// Native value that must be there, along a curve.
#[derive(Clone, Debug, PartialEq, Eq, Hash)]
pub struct EthRequireIntentSegment {
    standard_id: StandardId,
    curve: AssetBasedIntentCurve,
}

impl View for EthRequireIntentSegment {
    type V = IntentSegmentView;

    closed spec fn view(&self) -> IntentSegmentView {
        IntentSegmentView::EthRequire { standard_id: self.standard_id@, curve: self.curve@ }
    }
}

impl EthRequireIntentSegment {
    /// The segment that requires native value along the given curve, read
    /// as `evaluation_type` says.
    pub fn new(
        standard_id: StandardId,
        curve_parameters: CurveParameters,
        evaluation_type: EvaluationType,
    ) -> (segment: EthRequireIntentSegment)
        ensures
            segment@ == eth_require_segment(standard_id@, curve_parameters@, evaluation_type),
            segment@.encodable(),
    {
        EthRequireIntentSegment {
            standard_id,
            curve: AssetBasedIntentCurve::requirement(
                Address::zero(),
                U256::zero(),
                AssetType::ETH,
                curve_parameters,
                evaluation_type,
            ),
        }
    }

    /// The id of the standard that decodes the segment.
    pub fn standard_id(&self) -> (standard_id: StandardId)
        ensures
            standard_id@ == self@.standard_id(),
    {
        self.standard_id
    }

    /// The requirement curve.
    pub fn curve(&self) -> (curve: &AssetBasedIntentCurve)
        ensures
            self@ == (IntentSegmentView::EthRequire {
                standard_id: self@.standard_id(),
                curve: curve@,
            }),
    {
        &self.curve
    }
}

/// A call made on the sender's behalf.
#[derive(Clone, Debug, PartialEq, Eq, Hash)]
pub struct CallIntentSegment {
    standard_id: StandardId,
    call_data: Bytes,
}

impl View for CallIntentSegment {
    type V = IntentSegmentView;

    closed spec fn view(&self) -> IntentSegmentView {
        IntentSegmentView::Call { standard_id: self.standard_id@, call_data: self.call_data@ }
    }
}

impl CallIntentSegment {
    /// The segment that makes the call with the given bytes.
    pub fn new(standard_id: StandardId, call_data: Bytes) -> (segment: CallIntentSegment)
        ensures
            segment@ == (IntentSegmentView::Call {
                standard_id: standard_id@,
                call_data: call_data@,
            }),
    {
        CallIntentSegment { standard_id, call_data }
    }

    /// The id of the standard that decodes the segment.
    pub fn standard_id(&self) -> (standard_id: StandardId)
        ensures
            standard_id@ == self@.standard_id(),
    {
        self.standard_id
    }

    /// The bytes of the call.
    pub fn call_data(&self) -> (call_data: &Bytes)
        ensures
            self@ == (IntentSegmentView::Call {
                standard_id: self@.standard_id(),
                call_data: call_data@,
            }),
    {
        &self.call_data
    }
}

/// The nonce that the sender's account must be at.
#[derive(Clone, Debug, PartialEq, Eq, Hash)]
pub struct SequentialNonceSegment {
    standard_id: StandardId,
    nonce: U256,
}

impl View for SequentialNonceSegment {
    type V = IntentSegmentView;

    closed spec fn view(&self) -> IntentSegmentView {
        IntentSegmentView::SequentialNonce { standard_id: self.standard_id@, nonce: self.nonce@ }
    }
}

impl SequentialNonceSegment {
    /// The segment that asks for the given nonce. Whether the account is at
    /// that nonce is for the chain to say.
    pub fn new(standard_id: StandardId, nonce: U256) -> (segment: SequentialNonceSegment)
        ensures
            segment@ == (IntentSegmentView::SequentialNonce {
                standard_id: standard_id@,
                nonce: nonce@,
            }),
    {
        SequentialNonceSegment { standard_id, nonce }
    }

    /// The id of the standard that decodes the segment.
    pub fn standard_id(&self) -> (standard_id: StandardId)
        ensures
            standard_id@ == self@.standard_id(),
    {
        self.standard_id
    }

    /// The nonce.
    pub fn nonce(&self) -> (nonce: U256)
        ensures
            self@ == (IntentSegmentView::SequentialNonce {
                standard_id: self@.standard_id(),
                nonce: nonce@,
            }),
    {
        self.nonce
    }
}

/// One segment of an intent, of one of the six kinds.
#[derive(Clone, Debug, PartialEq, Eq, Hash)]
pub enum IntentSegment {
    Erc20Release(Erc20ReleaseIntentSegment),
    EthRelease(EthReleaseIntentSegment),
    EthRequire(EthRequireIntentSegment),
    Call(CallIntentSegment),
    SequentialNonce(SequentialNonceSegment),
    AssetBasedIntent(StandardId, AssetBasedIntentSegment),
}

impl View for IntentSegment {
    type V = IntentSegmentView;

    open spec fn view(&self) -> IntentSegmentView {
        match self {
            IntentSegment::Erc20Release(segment) => segment@,
            IntentSegment::EthRelease(segment) => segment@,
            IntentSegment::EthRequire(segment) => segment@,
            IntentSegment::Call(segment) => segment@,
            IntentSegment::SequentialNonce(segment) => segment@,
            IntentSegment::AssetBasedIntent(standard_id, segment) => {
                IntentSegmentView::AssetBasedIntent { standard_id: standard_id@, segment: segment@ }
            },
        }
    }
}

impl IntentSegment {
    /// The bytes that the segment's standard reads. A payload that would be
    /// too large for the encoder is refused.
    pub fn payload(&self) -> (payload: Result<Bytes, EncodingError>)
        ensures
            self@.encodable() ==> payload is Ok && payload->Ok_0@ == self@.payload(),
            !self@.encodable() ==> payload == Err::<Bytes, EncodingError>(
                EncodingError::EncodingTooLarge,
            ),
    {
        match self {
            IntentSegment::Erc20Release(segment) => segment.curve().encode(),
            IntentSegment::EthRelease(segment) => segment.curve().encode(),
            IntentSegment::EthRequire(segment) => segment.curve().encode(),
            IntentSegment::Call(segment) => {
                let call_data = segment.call_data();
                let bytes = call_data.clone();
                Ok(bytes)
            },
            IntentSegment::SequentialNonce(segment) => Ok(abi_encode_u256(segment.nonce())),
            IntentSegment::AssetBasedIntent(_, segment) => segment.encode(),
        }
    }

    /// The segment as it goes to the chain: the id of its standard and the
    /// bytes that the standard reads. A segment whose payload would be too
    /// large for the encoder is refused.
    pub fn encode(&self) -> (encoded: Result<(StandardId, Bytes), EncodingError>)
        ensures
            self@.encodable() ==> encoded is Ok && (encoded->Ok_0.0@, encoded->Ok_0.1@)
                == self@.encoding(),
            !self@.encodable() ==> encoded == Err::<(StandardId, Bytes), EncodingError>(
                EncodingError::EncodingTooLarge,
            ),
    {
        match self.payload() {
            Ok(payload) => Ok((self.standard_id(), payload)),
            Err(error) => Err(error),
        }
    }

    /// The id of the standard that decodes the segment.
    pub fn standard_id(&self) -> (standard_id: StandardId)
        ensures
            standard_id@ == self@.standard_id(),
    {
        match self {
            IntentSegment::Erc20Release(segment) => segment.standard_id(),
            IntentSegment::EthRelease(segment) => segment.standard_id(),
            IntentSegment::EthRequire(segment) => segment.standard_id(),
            IntentSegment::Call(segment) => segment.standard_id(),
            IntentSegment::SequentialNonce(segment) => segment.standard_id(),
            IntentSegment::AssetBasedIntent(standard_id, _) => *standard_id,
        }
    }
}

} // verus!
