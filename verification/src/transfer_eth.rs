//! The intents of an ETH transfer that a solver pays for: the user releases
//! tokens and ETH and requires to be left with some ETH; the solver swaps
//! the tokens and forwards the ETH.

use vstd::prelude::*;
use crate::curve_type::{constant_curve, ConstantCurveParameters, CurveParameters, CurveView};
use crate::evaluation_type::EvaluationType;
use crate::intent_segment::{
    erc20_release_segment, eth_release_segment, eth_require_segment, CallIntentSegment,
    Erc20ReleaseIntentSegment, EthReleaseIntentSegment, EthRequireIntentSegment, IntentSegment,
    IntentSegmentView, SequentialNonceSegment,
};
use crate::intent_solution::{intent_views, unsigned_values, IntentSolution, IntentSolutionView};
use crate::primitives::{signed_reading, Address, Bytes, StandardId, I256, U256};
use crate::user_intent::{SealView, UserIntent, UserIntentView};

verus! {

/// Where the contracts of a deployment are: the ids under which the
/// standards are registered and the addresses of the token and of the
/// solver's helper.
#[derive(Clone, Copy, Debug, PartialEq, Eq, Hash)]
pub struct Deployment {
    /// The standard that decodes releases of fungible tokens.
    pub erc20_release_standard_id: StandardId,
    /// The standard that decodes releases of native value.
    pub eth_release_standard_id: StandardId,
    /// The standard that decodes requirements of native value.
    pub eth_require_standard_id: StandardId,
    /// The standard that checks nonces.
    pub sequential_nonce_standard_id: StandardId,
    /// The standard that makes calls.
    pub call_standard_id: StandardId,
    /// The token that the user releases.
    pub erc20: Address,
    /// The contract through which the solver acts.
    pub solver_utils: Address,
}

/// The segments of the user's intent: release tokens, release ETH, require
/// nothing less than zero ETH in absolute terms, at nonce 1.
pub open spec fn transfer_eth_segments(
    deployment: Deployment,
    erc20_release_params: CurveView,
    eth_transfer_params: CurveView,
) -> Seq<IntentSegmentView> {
    seq![
        erc20_release_segment(
            deployment.erc20_release_standard_id@,
            deployment.erc20@,
            erc20_release_params,
        ),
        eth_release_segment(deployment.eth_release_standard_id@, eth_transfer_params),
        eth_require_segment(
            deployment.eth_require_standard_id@,
            constant_curve(0),
            EvaluationType::ABSOLUTE,
        ),
        IntentSegmentView::SequentialNonce {
            standard_id: deployment.sequential_nonce_standard_id@,
            nonce: 1,
        },
    ]
}

/// The intent of the user: release tokens along `erc20_release_params`,
/// release ETH along `eth_transfer_params`, require in absolute terms that
/// no less than zero ETH is left, and do so at nonce 1.
pub fn transfer_eth_intent(
    deployment: &Deployment,
    sender: Address,
    erc20_release_params: CurveParameters,
    eth_transfer_params: CurveParameters,
) -> (intent: UserIntent)
    ensures
        intent@ == (UserIntentView {
            sender: sender@,
            standard_id: 0,
            segments: transfer_eth_segments(
                *deployment,
                erc20_release_params@,
                eth_transfer_params@,
            ),
            seal: SealView::Open,
        }),
        intent@.encodable(),
{
    let mut transfer_eth_intent = UserIntent::create(sender, 0);

    let release_erc20_segment = Erc20ReleaseIntentSegment::new(
        deployment.erc20_release_standard_id,
        deployment.erc20,
        erc20_release_params,
    );

    let release_eth_segment = EthReleaseIntentSegment::new(
        deployment.eth_release_standard_id,
        eth_transfer_params,
    );

    let require_eth_segment = EthRequireIntentSegment::new(
        deployment.eth_require_standard_id,
        CurveParameters::Constant(ConstantCurveParameters::new(I256::from_i128(0))),
        EvaluationType::ABSOLUTE,
    );

    let sequential_nonce_segment = SequentialNonceSegment::new(
        deployment.sequential_nonce_standard_id,
        U256::from_u128(1),
    );

    let _ = transfer_eth_intent.add_segment(IntentSegment::Erc20Release(release_erc20_segment));
    let _ = transfer_eth_intent.add_segment(IntentSegment::EthRelease(release_eth_segment));
    let _ = transfer_eth_intent.add_segment(IntentSegment::EthRequire(require_eth_segment));
    let _ = transfer_eth_intent.add_segment(
        IntentSegment::SequentialNonce(sequential_nonce_segment),
    );

    assert(transfer_eth_intent@.segments =~= transfer_eth_segments(
        *deployment,
        erc20_release_params@,
        eth_transfer_params@,
    ));
    transfer_eth_intent
}

/// The intent of the solver, sent from its helper contract: the call that
/// swaps the released tokens for ETH, then the call that forwards the ETH.
/// The bytes of the two calls are taken as they are.
pub fn transfer_eth_solver_intent(
    deployment: &Deployment,
    swap_erc20_for_eth_calldata: Bytes,
    transfer_eth_calldata: Bytes,
) -> (intent: UserIntent)
    ensures
        intent@ == (UserIntentView {
            sender: deployment.solver_utils@,
            standard_id: 0,
            segments: seq![
                IntentSegmentView::Call {
                    standard_id: deployment.call_standard_id@,
                    call_data: swap_erc20_for_eth_calldata@,
                },
                IntentSegmentView::Call {
                    standard_id: deployment.call_standard_id@,
                    call_data: transfer_eth_calldata@,
                },
            ],
            seal: SealView::Open,
        }),
        intent@.encodable(),
{
    let mut solution = UserIntent::create(deployment.solver_utils, 0);
    let swap_erc20_for_eth_segment = CallIntentSegment::new(
        deployment.call_standard_id,
        swap_erc20_for_eth_calldata,
    );
    let transfer_eth_segment = CallIntentSegment::new(
        deployment.call_standard_id,
        transfer_eth_calldata,
    );

    let _ = solution.add_segment(IntentSegment::Call(swap_erc20_for_eth_segment));
    let _ = solution.add_segment(IntentSegment::Call(transfer_eth_segment));

    assert(solution@.segments =~= seq![
        IntentSegmentView::Call {
            standard_id: deployment.call_standard_id@,
            call_data: swap_erc20_for_eth_calldata@,
        },
        IntentSegmentView::Call {
            standard_id: deployment.call_standard_id@,
            call_data: transfer_eth_calldata@,
        },
    ]);
    solution
}

/// The constant curve of the amount that is transferred: the bits of
/// `transfer_amount`, read as a signed word.
pub fn transfer_amount_curve(transfer_amount: U256) -> (curve: CurveParameters)
    ensures
        curve@ == constant_curve(signed_reading(transfer_amount@)),
{
    CurveParameters::Constant(ConstantCurveParameters::new(I256::from_raw(transfer_amount)))
}

/// The solution of the transfer: the user's intent first, the solver's
/// intent second, to run at `block_number`, with no order of its own.
pub fn transfer_eth_solution(
    block_number: U256,
    intent: UserIntent,
    solver_intent: UserIntent,
) -> (solution: IntentSolution)
    ensures
        solution@ == (IntentSolutionView {
            execution_block_number: block_number@,
            intents: seq![intent@, solver_intent@],
            order: Seq::empty(),
        }),
{
    let mut intents: Vec<UserIntent> = Vec::new();
    intents.push(intent);
    intents.push(solver_intent);
    let order: Vec<U256> = Vec::new();
    assert(intent_views(intents@) =~= seq![intent@, solver_intent@]);
    assert(unsigned_values(order@) =~= Seq::<int>::empty());
    IntentSolution::new(block_number, intents, order)
}

} // verus!
