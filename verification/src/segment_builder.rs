//! The generic asset-based segment: a call, the curves of the assets that it
//! releases and the curves of the assets that it requires.

use vstd::prelude::*;
use crate::abi::{
    abi_encode_segment, abi_segment_encoding, curves_encoding_size, segment_encoding_size,
    encoding_size_limit, max_encoding_size,
};
use crate::asset_type::AssetType;
use crate::curve_builder::{
    release_curve, requirement_curve, AssetBasedIntentCurve, AssetBasedIntentCurveView,
};
use crate::curve_type::CurveParameters;
use crate::error::EncodingError;
use crate::evaluation_type::EvaluationType;
use crate::primitives::{Address, Bytes, U256};

verus! {

/// A segment that releases and requires assets by curves. The two lists are
/// ordered on their own, and the order counts: the chain applies the curves
/// by position.
#[derive(Clone, Debug, PartialEq, Eq, Hash)]
pub struct AssetBasedIntentSegment {
    call_data: Bytes,
    asset_releases: Vec<AssetBasedIntentCurve>,
    asset_requirements: Vec<AssetBasedIntentCurve>,
}

/// What an [`AssetBasedIntentSegment`] holds, as mathematical values.
pub struct AssetBasedIntentSegmentView {
    /// The bytes of the call that the segment makes.
    pub call_data: Seq<u8>,
    /// The release curves, in the order in which they were added.
    pub asset_releases: Seq<AssetBasedIntentCurveView>,
    /// The requirement curves, in the order in which they were added.
    pub asset_requirements: Seq<AssetBasedIntentCurveView>,
}

/// The views of a sequence of curves, in the same order.
pub open spec fn curve_views(curves: Seq<AssetBasedIntentCurve>) -> Seq<AssetBasedIntentCurveView> {
    curves.map_values(|curve: AssetBasedIntentCurve| curve@)
}

/// Adding a curve behind a sequence adds its view behind the views.
pub proof fn lemma_curve_views_push(
    curves: Seq<AssetBasedIntentCurve>,
    curve: AssetBasedIntentCurve,
)
    ensures
        curve_views(curves.push(curve)) == curve_views(curves).push(curve@),
{
}

/// A list of curves adds at least as many bytes to an encoding as any of
/// its beginnings.
pub proof fn lemma_curves_encoding_size_grows(curves: Seq<AssetBasedIntentCurveView>, count: int)
    requires
        0 <= count <= curves.len(),
    ensures
        curves_encoding_size(curves.subrange(0, count)) <= curves_encoding_size(curves),
    decreases curves.len() - count,
{
    if count == curves.len() {
        assert(curves.subrange(0, count) =~= curves);
    } else {
        lemma_curves_encoding_size_grows(curves, count + 1);
        assert(curves.subrange(0, count + 1).drop_last() =~= curves.subrange(0, count));
    }
}

/// The number of bytes that a list of curves adds to an encoding, unless it
/// is more than the encoder can lay out.
fn curves_size(curves: &Vec<AssetBasedIntentCurve>) -> (size: Option<u64>)
    ensures
        size == if curves_encoding_size(curve_views(curves@)) <= max_encoding_size() {
            Some(curves_encoding_size(curve_views(curves@)) as u64)
        } else {
            None
        },
{
    let ghost views = curve_views(curves@);
    let limit = encoding_size_limit();
    let mut total: u64 = 0;
    let mut index: usize = 0;
    while index < curves.len()
        invariant
            index <= curves.len(),
            views == curve_views(curves@),
            total == curves_encoding_size(views.subrange(0, index as int)),
            limit == max_encoding_size(),
            total <= limit,
        decreases curves.len() - index,
    {
        proof {
            lemma_curves_encoding_size_grows(views, index + 1);
            assert(views.subrange(0, index + 1).drop_last() =~= views.subrange(0, index as int));
        }
        match curves[index].encoding_size() {
            Some(size) => {
                total = total + 32 + size;
                if total > limit {
                    return None;
                }
            },
            None => {
                return None;
            },
        }
        index += 1;
    }
    assert(views.subrange(0, index as int) =~= views);
    Some(total)
}

impl AssetBasedIntentSegmentView {
    /// The segment that makes the given call and has no curve.
    pub open spec fn without_curves(call_data: Seq<u8>) -> Self {
        AssetBasedIntentSegmentView {
            call_data,
            asset_releases: Seq::empty(),
            asset_requirements: Seq::empty(),
        }
    }

    /// The bytes of the segment as the chain reads it.
    pub open spec fn encoding(self) -> Seq<u8> {
        abi_segment_encoding(self.call_data, self.asset_releases, self.asset_requirements)
    }

    /// The number of bytes of the segment's encoding.
    pub open spec fn encoding_size(self) -> nat {
        segment_encoding_size(self.call_data, self.asset_releases, self.asset_requirements)
    }

    /// The encoder can lay out the segment.
    pub open spec fn encodable(self) -> bool {
        self.encoding_size() <= max_encoding_size()
    }

    /// The number of bytes of the segment's encoding, if the encoder can lay
    /// it out.
    pub open spec fn encodable_size(self) -> Option<u64> {
        if self.encodable() {
            Some(self.encoding_size() as u64)
        } else {
            None
        }
    }

    /// The segment with `curve` added behind its releases.
    pub open spec fn with_release(self, curve: AssetBasedIntentCurveView) -> Self {
        AssetBasedIntentSegmentView { asset_releases: self.asset_releases.push(curve), ..self }
    }

    /// The segment with `curve` added behind its requirements.
    pub open spec fn with_requirement(self, curve: AssetBasedIntentCurveView) -> Self {
        AssetBasedIntentSegmentView {
            asset_requirements: self.asset_requirements.push(curve),
            ..self
        }
    }
}

/// The two lists are ordered on their own: adding a release and adding a
/// requirement can be done in either order, each list keeps what it had in
/// front, and the call stays as it is.
pub proof fn law_lists_are_independent(
    segment: AssetBasedIntentSegmentView,
    release: AssetBasedIntentCurveView,
    requirement: AssetBasedIntentCurveView,
)
    ensures
        segment.with_release(release).with_requirement(requirement) == segment.with_requirement(
            requirement,
        ).with_release(release),
        segment.with_release(release).asset_requirements == segment.asset_requirements,
        segment.with_requirement(requirement).asset_releases == segment.asset_releases,
        segment.with_release(release).asset_releases.drop_last() == segment.asset_releases,
        segment.with_release(release).asset_releases.last() == release,
        segment.with_requirement(requirement).asset_requirements.drop_last()
            == segment.asset_requirements,
        segment.with_requirement(requirement).asset_requirements.last() == requirement,
        segment.with_release(release).call_data == segment.call_data,
        segment.with_requirement(requirement).call_data == segment.call_data,
{
}

impl View for AssetBasedIntentSegment {
    type V = AssetBasedIntentSegmentView;

    closed spec fn view(&self) -> AssetBasedIntentSegmentView {
        AssetBasedIntentSegmentView {
            call_data: self.call_data@,
            asset_releases: curve_views(self.asset_releases@),
            asset_requirements: curve_views(self.asset_requirements@),
        }
    }
}

impl Default for AssetBasedIntentSegment {
    /// The segment with an empty call and no curve: what `new` makes of an
    /// empty call.
    fn default() -> (segment: AssetBasedIntentSegment)
        ensures
            segment@ == AssetBasedIntentSegmentView::without_curves(Seq::empty()),
            segment@ == (AssetBasedIntentSegmentView {
                call_data: Seq::empty(),
                asset_releases: Seq::empty(),
                asset_requirements: Seq::empty(),
            }),
    {
        AssetBasedIntentSegment::new(Vec::new())
    }
}

impl AssetBasedIntentSegment {
    /// The segment that makes the given call and has no curve yet.
    pub fn new(call_data: Bytes) -> (segment: AssetBasedIntentSegment)
        ensures
            segment@ == AssetBasedIntentSegmentView::without_curves(call_data@),
            segment@ == (AssetBasedIntentSegmentView {
                call_data: call_data@,
                asset_releases: Seq::empty(),
                asset_requirements: Seq::empty(),
            }),
    {
        let segment = AssetBasedIntentSegment {
            call_data,
            asset_releases: Vec::new(),
            asset_requirements: Vec::new(),
        };
        assert(segment@.asset_requirements =~= Seq::empty());
        segment
    }

    /// Adds the release curve of an asset behind the releases that are
    /// there. Its evaluation type is absolute.
    pub fn add_asset_release_curve(
        &mut self,
        asset_contract: Address,
        asset_id: U256,
        asset_type: AssetType,
        curve_parameters: CurveParameters,
    ) -> (segment: &mut Self)
        ensures
            (*segment)@ == old(self)@.with_release(
                release_curve(asset_contract@, asset_id@, asset_type, curve_parameters@),
            ),
            *final(self) == *final(segment),
    {
        let curve = AssetBasedIntentCurve::release(
            asset_contract,
            asset_id,
            asset_type,
            curve_parameters,
        );
        proof {
            lemma_curve_views_push(self.asset_releases@, curve);
        }
        self.asset_releases.push(curve);
        self
    }

    /// Adds the requirement curve of an asset behind the requirements that
    /// are there, to be read as `evaluation_type` says.
    pub fn add_asset_requirement_curve(
        &mut self,
        asset_contract: Address,
        asset_id: U256,
        asset_type: AssetType,
        curve_parameters: CurveParameters,
        evaluation_type: EvaluationType,
    ) -> (segment: &mut Self)
        ensures
            (*segment)@ == old(self)@.with_requirement(
                requirement_curve(
                    asset_contract@,
                    asset_id@,
                    asset_type,
                    curve_parameters@,
                    evaluation_type,
                ),
            ),
            *final(self) == *final(segment),
    {
        let curve = AssetBasedIntentCurve::requirement(
            asset_contract,
            asset_id,
            asset_type,
            curve_parameters,
            evaluation_type,
        );
        proof {
            lemma_curve_views_push(self.asset_requirements@, curve);
        }
        self.asset_requirements.push(curve);
        self
    }

    /// The number of bytes of the segment's encoding, unless it is more
    /// than the encoder can lay out.
    pub fn encoding_size(&self) -> (size: Option<u64>)
        ensures
            size == self@.encodable_size(),
    {
        if self.call_data.len() > 0xffff_ffff {
            return None;
        }
        let call_size: u64 = 32 + 32 * ((self.call_data.len() as u64 + 31) / 32);
        let releases_size = match curves_size(&self.asset_releases) {
            Some(size) => size,
            None => {
                return None;
            },
        };
        let requirements_size = match curves_size(&self.asset_requirements) {
            Some(size) => size,
            None => {
                return None;
            },
        };
        let total: u64 = 96 + call_size + 32 + releases_size + 32 + requirements_size;
        if total > encoding_size_limit() {
            None
        } else {
            Some(total)
        }
    }

    /// The segment as the chain reads it: the ABI encoding of the tuple of
    /// its call and its two lists of curves. A segment whose encoding would
    /// be too large is refused.
    pub fn encode(&self) -> (encoded: Result<Vec<u8>, EncodingError>)
        ensures
            self@.encodable() ==> encoded is Ok && encoded->Ok_0@ == self@.encoding(),
            self@.encodable() ==> encoded->Ok_0@.len() == self@.encoding_size(),
            !self@.encodable() ==> encoded == Err::<Vec<u8>, EncodingError>(
                EncodingError::EncodingTooLarge,
            ),
    {
        match self.encoding_size() {
            Some(_) => Ok(
                abi_encode_segment(&self.call_data, &self.asset_releases, &self.asset_requirements),
            ),
            None => Err(EncodingError::EncodingTooLarge),
        }
    }

    /// The segment with exactly the given parts.
    pub fn from_parts(
        call_data: Bytes,
        asset_releases: Vec<AssetBasedIntentCurve>,
        asset_requirements: Vec<AssetBasedIntentCurve>,
    ) -> (segment: AssetBasedIntentSegment)
        ensures
            segment@ == (AssetBasedIntentSegmentView {
                call_data: call_data@,
                asset_releases: curve_views(asset_releases@),
                asset_requirements: curve_views(asset_requirements@),
            }),
    {
        AssetBasedIntentSegment { call_data, asset_releases, asset_requirements }
    }

    /// The bytes of the call that the segment makes.
    pub fn call_data(&self) -> (call_data: &Bytes)
        ensures
            call_data@ == self@.call_data,
    {
        &self.call_data
    }

    /// The release curves, in the order in which they were added.
    pub fn asset_releases(&self) -> (curves: &Vec<AssetBasedIntentCurve>)
        ensures
            curve_views(curves@) == self@.asset_releases,
    {
        &self.asset_releases
    }

    /// The requirement curves, in the order in which they were added.
    pub fn asset_requirements(&self) -> (curves: &Vec<AssetBasedIntentCurve>)
        ensures
            curve_views(curves@) == self@.asset_requirements,
    {
        &self.asset_requirements
    }
}

} // verus!
