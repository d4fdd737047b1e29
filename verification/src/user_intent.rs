//! A user's intent: who sends it and the ordered segments that it is made
//! of, from the first segment to the seal that a signature sets on it.
//!
//! An intent starts empty, takes segments at its end, is signed and is
//! submitted. Once signed it never changes again: a further segment would
//! void the signature.

use vstd::prelude::*;
use crate::error::EncodingError;
use crate::intent_segment::{IntentSegment, IntentSegmentView};
use crate::primitives::{Address, Bytes, StandardId};

verus! {

/// Where an intent stands in its life.
#[derive(Clone, Copy, Debug, PartialEq, Eq, Hash, Structural)]
pub enum IntentState {
    /// Created, without a segment.
    Empty,
    /// At least one segment was added; more may follow.
    Building,
    /// Signed: the segments are fixed.
    Signed,
    /// Signed and handed to the settlement protocol.
    Submitted,
}

/// What closes an intent.
#[derive(Clone, Debug, PartialEq, Eq, Hash)]
enum Seal {
    Open,
    Signed(Bytes),
    Submitted(Bytes),
}

/// What closes an intent, as mathematical values.
pub enum SealView {
    /// Nothing yet: segments may be added.
    Open,
    /// The detached signature over the intent.
    Signed { signature: Seq<u8> },
    /// The signature of an intent that was submitted.
    Submitted { signature: Seq<u8> },
}

/// An intent under construction or sealed.
#[derive(Clone, Debug, PartialEq, Eq, Hash)]
pub struct UserIntent {
    sender: Address,
    standard_id: u64,
    segments: Vec<IntentSegment>,
    seal: Seal,
}

/// What a [`UserIntent`] holds, as mathematical values.
pub struct UserIntentView {
    /// The 20 bytes of the sender's address.
    pub sender: Seq<u8>,
    /// The marker of the entry standard; 0 until one is set.
    pub standard_id: u64,
    /// The segments, in the order in which they were added.
    pub segments: Seq<IntentSegmentView>,
    /// What closes the intent.
    pub seal: SealView,
}

/// The views of a sequence of segments, in the same order.
pub open spec fn segment_views(segments: Seq<IntentSegment>) -> Seq<IntentSegmentView> {
    segments.map_values(|segment: IntentSegment| segment@)
}

/// Encoded segments as mathematical values: for each, the 32 bytes of the
/// standard's id and the bytes of the payload.
pub open spec fn encoded_views(encoded: Seq<(StandardId, Bytes)>) -> Seq<(Seq<u8>, Seq<u8>)> {
    encoded.map_values(|pair: (StandardId, Bytes)| (pair.0@, pair.1@))
}

/// Adding a segment behind a sequence adds its view behind the views.
pub proof fn lemma_segment_views_push(segments: Seq<IntentSegment>, segment: IntentSegment)
    ensures
        segment_views(segments.push(segment)) == segment_views(segments).push(segment@),
{
}

impl UserIntentView {
    /// The intent of `sender` that has no segment and no seal.
    pub open spec fn created(sender: Seq<u8>, standard_id: u64) -> UserIntentView {
        UserIntentView { sender, standard_id, segments: Seq::empty(), seal: SealView::Open }
    }

    /// Where the intent stands in its life.
    pub open spec fn state(self) -> IntentState {
        match self.seal {
            SealView::Open => if self.segments.len() == 0 {
                IntentState::Empty
            } else {
                IntentState::Building
            },
            SealView::Signed { .. } => IntentState::Signed,
            SealView::Submitted { .. } => IntentState::Submitted,
        }
    }

    /// The signature, once there is one.
    pub open spec fn signature(self) -> Option<Seq<u8>> {
        match self.seal {
            SealView::Open => None,
            SealView::Signed { signature } => Some(signature),
            SealView::Submitted { signature } => Some(signature),
        }
    }

    /// The segments as they go to the chain, one by one and in their order:
    /// this is what a signature is given over.
    pub open spec fn encoded_segments(self) -> Seq<(Seq<u8>, Seq<u8>)> {
        self.segments.map_values(|segment: IntentSegmentView| segment.encoding())
    }

    /// The encoder can lay out every segment.
    pub open spec fn encodable(self) -> bool {
        forall|i: int| 0 <= i < self.segments.len() ==> (#[trigger] self.segments[i]).encodable()
    }

    /// The intent after a call of `add_segment`: with the segment at its
    /// end while it is open, unchanged once it is sealed.
    pub open spec fn add_segment(self, segment: IntentSegmentView) -> UserIntentView {
        if self.seal is Open {
            UserIntentView { segments: self.segments.push(segment), ..self }
        } else {
            self
        }
    }

    /// What a call of `add_segment` answers.
    pub open spec fn add_segment_outcome(self) -> Result<(), EncodingError> {
        if self.seal is Open {
            Ok(())
        } else {
            Err(EncodingError::IntentAlreadySigned)
        }
    }

    /// The intent after `add_segment` was called with each of `segments` in
    /// turn.
    pub open spec fn add_segments(self, segments: Seq<IntentSegmentView>) -> UserIntentView
        decreases segments.len(),
    {
        if segments.len() == 0 {
            self
        } else {
            self.add_segments(segments.drop_last()).add_segment(segments.last())
        }
    }

    /// The intent after a call of `sign`: sealed with the signature while it
    /// was open, unchanged if it was sealed already.
    pub open spec fn sign(self, signature: Seq<u8>) -> UserIntentView {
        if self.seal is Open {
            UserIntentView { seal: SealView::Signed { signature }, ..self }
        } else {
            self
        }
    }

    /// What a call of `sign` answers.
    pub open spec fn sign_outcome(self) -> Result<(), EncodingError> {
        if self.seal is Open {
            Ok(())
        } else {
            Err(EncodingError::IntentAlreadySigned)
        }
    }

    /// The intent after a call of `mark_submitted`: submitted if it was
    /// signed and not yet submitted, unchanged otherwise.
    pub open spec fn mark_submitted(self) -> UserIntentView {
        match self.seal {
            SealView::Signed { signature } => UserIntentView {
                seal: SealView::Submitted { signature },
                ..self
            },
            _ => self,
        }
    }

    /// What a call of `mark_submitted` answers.
    pub open spec fn mark_submitted_outcome(self) -> Result<(), EncodingError> {
        match self.seal {
            SealView::Open => Err(EncodingError::IntentNotSigned),
            SealView::Signed { .. } => Ok(()),
            SealView::Submitted { .. } => Err(EncodingError::IntentAlreadySubmitted),
        }
    }
}

/// Segments come out in the order in which they went in: after adding
/// `segments` one by one to an open intent, its segments are those it had,
/// followed by exactly `segments`. None is moved, merged or dropped, and
/// nothing else of the intent changes.
pub proof fn law_append_only(intent: UserIntentView, segments: Seq<IntentSegmentView>)
    requires
        intent.seal is Open,
    ensures
        intent.add_segments(segments) == (UserIntentView {
            segments: intent.segments + segments,
            ..intent
        }),
    decreases segments.len(),
{
    if segments.len() > 0 {
        law_append_only(intent, segments.drop_last());
        assert((intent.segments + segments.drop_last()).push(segments.last()) =~= intent.segments
            + segments);
    }
}

/// What goes to the chain grows at its end as well: a segment added to an
/// open intent adds its encoding behind the encodings that were there.
pub proof fn law_encoding_is_append_only(intent: UserIntentView, segment: IntentSegmentView)
    requires
        intent.seal is Open,
    ensures
        intent.add_segment(segment).encoded_segments() == intent.encoded_segments().push(
            segment.encoding(),
        ),
        intent.add_segment(segment).encodable() <==> intent.encodable() && segment.encodable(),
{
    let after = intent.add_segment(segment);
    if after.encodable() {
        assert(after.segments[intent.segments.len() as int].encodable());
        assert forall|i: int| 0 <= i < intent.segments.len() implies
            (#[trigger] intent.segments[i]).encodable()
        by {
            assert(after.segments[i].encodable());
        }
    }
}

/// Three calls of `add_segment` on a new intent leave it with exactly the
/// three segments, in the order of the calls.
pub proof fn law_three_segments_in_order(
    sender: Seq<u8>,
    standard_id: u64,
    first: IntentSegmentView,
    second: IntentSegmentView,
    third: IntentSegmentView,
)
    ensures
        UserIntentView::created(sender, standard_id).add_segment(first).add_segment(
            second,
        ).add_segment(third).segments == seq![first, second, third],
{
}

/// A signed intent is closed for good: `add_segment` and `sign` answer with
/// an error and leave it as it was, whatever they are given.
pub proof fn law_sealed_is_immutable(
    intent: UserIntentView,
    segment: IntentSegmentView,
    signature: Seq<u8>,
)
    requires
        !(intent.seal is Open),
    ensures
        intent.add_segment(segment) == intent,
        intent.add_segment_outcome() == Err::<(), EncodingError>(
            EncodingError::IntentAlreadySigned,
        ),
        intent.sign(signature) == intent,
        intent.sign_outcome() == Err::<(), EncodingError>(EncodingError::IntentAlreadySigned),
        intent.mark_submitted().segments == intent.segments,
        intent.mark_submitted().signature() == intent.signature(),
{
}

/// An intent only moves forward: from empty to building by a segment, from
/// either to signed by a signature, from signed to submitted.
pub proof fn law_life_cycle(intent: UserIntentView, segment: IntentSegmentView, signature: Seq<u8>)
    ensures
        intent.state() == IntentState::Empty || intent.state() == IntentState::Building ==> {
            &&& intent.add_segment(segment).state() == IntentState::Building
            &&& intent.sign(signature).state() == IntentState::Signed
            &&& intent.mark_submitted().state() == intent.state()
        },
        intent.state() == IntentState::Signed ==> {
            &&& intent.add_segment(segment).state() == IntentState::Signed
            &&& intent.sign(signature).state() == IntentState::Signed
            &&& intent.mark_submitted().state() == IntentState::Submitted
        },
        intent.state() == IntentState::Submitted ==> {
            &&& intent.add_segment(segment).state() == IntentState::Submitted
            &&& intent.sign(signature).state() == IntentState::Submitted
            &&& intent.mark_submitted().state() == IntentState::Submitted
        },
{
}

impl View for UserIntent {
    type V = UserIntentView;

    closed spec fn view(&self) -> UserIntentView {
        UserIntentView {
            sender: self.sender@,
            standard_id: self.standard_id,
            segments: segment_views(self.segments@),
            seal: match self.seal {
                Seal::Open => SealView::Open,
                Seal::Signed(signature) => SealView::Signed { signature: signature@ },
                Seal::Submitted(signature) => SealView::Submitted { signature: signature@ },
            },
        }
    }
}

impl UserIntent {
    /// A new intent of `sender`, without segments. `standard_id` marks the
    /// entry standard; 0 stands for "not set".
    pub fn create(sender: Address, standard_id: u64) -> (intent: UserIntent)
        ensures
            intent@ == UserIntentView::created(sender@, standard_id),
    {
        let intent = UserIntent { sender, standard_id, segments: Vec::new(), seal: Seal::Open };
        assert(intent@.segments =~= Seq::empty());
        intent
    }

    /// Adds `segment` at the end of the intent. The segments that are there
    /// stay where they are. A sealed intent refuses the segment and stays as
    /// it is.
    pub fn add_segment(&mut self, segment: IntentSegment) -> (outcome: Result<(), EncodingError>)
        ensures
            final(self)@ == old(self)@.add_segment(segment@),
            outcome == old(self)@.add_segment_outcome(),
    {
        match self.seal {
            Seal::Open => {
                proof {
                    lemma_segment_views_push(self.segments@, segment);
                }
                self.segments.push(segment);
                Ok(())
            },
            _ => Err(EncodingError::IntentAlreadySigned),
        }
    }

    /// Seals the intent with the detached signature that the signer gave
    /// over it. An intent that is sealed already refuses and stays as it is.
    pub fn sign(&mut self, signature: Bytes) -> (outcome: Result<(), EncodingError>)
        ensures
            final(self)@ == old(self)@.sign(signature@),
            outcome == old(self)@.sign_outcome(),
    {
        match self.seal {
            Seal::Open => {
                self.seal = Seal::Signed(signature);
                Ok(())
            },
            _ => Err(EncodingError::IntentAlreadySigned),
        }
    }

    /// Records that the signed intent was handed to the settlement
    /// protocol. An intent that is not signed, or was submitted before,
    /// refuses and stays as it is.
    pub fn mark_submitted(&mut self) -> (outcome: Result<(), EncodingError>)
        ensures
            final(self)@ == old(self)@.mark_submitted(),
            outcome == old(self)@.mark_submitted_outcome(),
    {
        let mut seal = Seal::Open;
        std::mem::swap(&mut self.seal, &mut seal);
        match seal {
            Seal::Open => Err(EncodingError::IntentNotSigned),
            Seal::Signed(signature) => {
                self.seal = Seal::Submitted(signature);
                Ok(())
            },
            Seal::Submitted(signature) => {
                self.seal = Seal::Submitted(signature);
                Err(EncodingError::IntentAlreadySubmitted)
            },
        }
    }

    /// Encodes the segments for the chain, one by one and in their order.
    /// The signer signs over these, and the chain decodes each by the
    /// standard that it names. If a segment is too large for the encoder,
    /// nothing is encoded.
    pub fn encode_segments(&self) -> (encoded: Result<Vec<(StandardId, Bytes)>, EncodingError>)
        ensures
            self@.encodable() ==> encoded is Ok && encoded_views(encoded->Ok_0@)
                == self@.encoded_segments(),
            !self@.encodable() ==> encoded == Err::<Vec<(StandardId, Bytes)>, EncodingError>(
                EncodingError::EncodingTooLarge,
            ),
    {
        let mut encoded: Vec<(StandardId, Bytes)> = Vec::new();
        let mut index: usize = 0;
        while index < self.segments.len()
            invariant
                index <= self.segments.len(),
                encoded@.len() == index,
                forall|i: int| 0 <= i < index ==> (#[trigger] self.segments@[i])@.encodable(),
                forall|i: int|
                    0 <= i < index ==> {
                        &&& (#[trigger] encoded@[i]).0@ == self.segments@[i]@.standard_id()
                        &&& encoded@[i].1@ == self.segments@[i]@.payload()
                    },
            decreases self.segments.len() - index,
        {
            match self.segments[index].encode() {
                Ok(pair) => {
                    encoded.push(pair);
                },
                Err(_) => {
                    assert(!self@.segments[index as int].encodable());
                    return Err(EncodingError::EncodingTooLarge);
                },
            }
            index += 1;
        }
        Ok(encoded)
    }

    /// The sender.
    pub fn sender(&self) -> (sender: Address)
        ensures
            sender@ == self@.sender,
    {
        self.sender
    }

    /// The marker of the entry standard.
    pub fn standard_id(&self) -> (standard_id: u64)
        ensures
            standard_id == self@.standard_id,
    {
        self.standard_id
    }

    /// The segments, in the order in which they were added.
    pub fn segments(&self) -> (segments: &Vec<IntentSegment>)
        ensures
            segment_views(segments@) == self@.segments,
    {
        &self.segments
    }

    /// The signature, once there is one.
    pub fn signature(&self) -> (signature: Option<&Bytes>)
        ensures
            match signature {
                Some(bytes) => self@.signature() == Some(bytes@),
                None => self@.signature() is None,
            },
    {
        match &self.seal {
            Seal::Open => None,
            Seal::Signed(signature) => Some(signature),
            Seal::Submitted(signature) => Some(signature),
        }
    }

    /// Where the intent stands in its life.
    pub fn state(&self) -> (state: IntentState)
        ensures
            state == self@.state(),
    {
        match &self.seal {
            Seal::Open => if self.segments.len() == 0 {
                IntentState::Empty
            } else {
                IntentState::Building
            },
            Seal::Signed(_) => IntentState::Signed,
            Seal::Submitted(_) => IntentState::Submitted,
        }
    }
}

} // verus!
