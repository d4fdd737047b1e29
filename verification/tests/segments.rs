use intent_builder::asset_type::AssetType;
use intent_builder::curve_builder::AssetBasedIntentCurve;
use intent_builder::curve_type::{ConstantCurveParameters, CurveParameters, LinearCurveParameters};
use intent_builder::evaluation_type::EvaluationType;
use intent_builder::intent_segment::{
    CallIntentSegment, Erc20ReleaseIntentSegment, EthReleaseIntentSegment,
    EthRequireIntentSegment, IntentSegment, SequentialNonceSegment,
};
use intent_builder::primitives::{Address, I256, U256};
use intent_builder::segment_builder::AssetBasedIntentSegment;

fn constant(value: i128) -> CurveParameters {
    CurveParameters::Constant(ConstantCurveParameters::new(I256::from_i128(value)))
}

fn linear(m: i128, b: i128, max: i128) -> CurveParameters {
    CurveParameters::Linear(LinearCurveParameters::new(
        I256::from_i128(m),
        I256::from_i128(b),
        I256::from_i128(max),
    ))
}

fn contract(tag: u8) -> Address {
    Address::new([tag; 20])
}

fn standard(tag: u8) -> [u8; 32] {
    [tag; 32]
}

#[test]
fn new_segment_has_the_call_and_no_curves() {
    let segment = AssetBasedIntentSegment::new(vec![1, 2, 3]);
    assert_eq!(segment.call_data(), &vec![1u8, 2, 3]);
    assert!(segment.asset_releases().is_empty());
    assert!(segment.asset_requirements().is_empty());

    let empty = AssetBasedIntentSegment::new(Vec::new());
    assert!(empty.call_data().is_empty());
    assert_eq!(empty, AssetBasedIntentSegment::default());
    assert!(AssetBasedIntentSegment::default().call_data().is_empty());
    assert!(AssetBasedIntentSegment::default().asset_releases().is_empty());
    assert!(AssetBasedIntentSegment::default().asset_requirements().is_empty());
    assert_ne!(segment, AssetBasedIntentSegment::default());
}

#[test]
fn release_curves_are_kept_in_the_order_added() {
    let mut segment = AssetBasedIntentSegment::new(vec![9]);
    segment.add_asset_release_curve(contract(1), U256::from_u128(10), AssetType::ERC20, constant(5));
    segment.add_asset_release_curve(contract(2), U256::from_u128(20), AssetType::ETH, linear(1, 2, 3));
    segment.add_asset_release_curve(contract(1), U256::from_u128(10), AssetType::ERC20, constant(5));

    let expected = vec![
        AssetBasedIntentCurve::release(contract(1), U256::from_u128(10), AssetType::ERC20, constant(5)),
        AssetBasedIntentCurve::release(contract(2), U256::from_u128(20), AssetType::ETH, linear(1, 2, 3)),
        AssetBasedIntentCurve::release(contract(1), U256::from_u128(10), AssetType::ERC20, constant(5)),
    ];
    assert_eq!(segment.asset_releases(), &expected);
    assert!(segment.asset_requirements().is_empty());
    assert_eq!(segment.call_data(), &vec![9u8]);
    assert_eq!(segment.asset_releases()[0].flags(), 0x0100);
    assert_eq!(segment.asset_releases()[1].flags(), 0x0004);
}

#[test]
fn requirement_curves_are_kept_in_the_order_added() {
    let mut segment = AssetBasedIntentSegment::new(Vec::new());
    segment.add_asset_requirement_curve(
        contract(3),
        U256::zero(),
        AssetType::ERC721,
        constant(1),
        EvaluationType::RELATIVE,
    );
    segment.add_asset_requirement_curve(
        contract(4),
        U256::from_u128(8),
        AssetType::ERC1155,
        constant(-2),
        EvaluationType::ABSOLUTE,
    );

    let expected = vec![
        AssetBasedIntentCurve::requirement(
            contract(3),
            U256::zero(),
            AssetType::ERC721,
            constant(1),
            EvaluationType::RELATIVE,
        ),
        AssetBasedIntentCurve::requirement(
            contract(4),
            U256::from_u128(8),
            AssetType::ERC1155,
            constant(-2),
            EvaluationType::ABSOLUTE,
        ),
    ];
    assert_eq!(segment.asset_requirements(), &expected);
    assert!(segment.asset_releases().is_empty());
    assert_eq!(segment.asset_requirements()[0].flags(), 0x0201);
    assert_eq!(segment.asset_requirements()[1].flags(), 0x0400);
}

#[test]
fn releases_and_requirements_do_not_mix() {
    let mut segment = AssetBasedIntentSegment::new(vec![0xaa]);
    segment
        .add_asset_release_curve(contract(1), U256::zero(), AssetType::ETH, constant(1000))
        .add_asset_requirement_curve(
            contract(2),
            U256::zero(),
            AssetType::ERC20,
            constant(7),
            EvaluationType::RELATIVE,
        )
        .add_asset_release_curve(contract(3), U256::zero(), AssetType::ERC20, constant(3));

    assert_eq!(segment.asset_releases().len(), 2);
    assert_eq!(segment.asset_requirements().len(), 1);
    assert_eq!(segment.asset_releases()[0].asset_contract(), contract(1));
    assert_eq!(segment.asset_releases()[1].asset_contract(), contract(3));
    assert_eq!(segment.asset_requirements()[0].asset_contract(), contract(2));
    assert_eq!(segment.asset_requirements()[0].flags(), 0x0101);
}

#[test]
fn erc20_release_segment_binds_the_token() {
    let segment = Erc20ReleaseIntentSegment::new(standard(1), contract(9), linear(1, 2, 3));
    assert_eq!(segment.standard_id(), standard(1));
    assert_eq!(
        segment.curve(),
        &AssetBasedIntentCurve::release(contract(9), U256::zero(), AssetType::ERC20, linear(1, 2, 3))
    );
    assert_eq!(segment.curve().flags(), 0x0104);
}

#[test]
fn eth_release_segment_has_no_contract() {
    let segment = EthReleaseIntentSegment::new(standard(2), constant(1000));
    assert_eq!(segment.standard_id(), standard(2));
    assert_eq!(segment.curve().asset_contract(), Address::zero());
    assert_eq!(segment.curve().asset_id(), U256::zero());
    assert_eq!(segment.curve().flags(), 0);
    assert_eq!(segment.curve().params(), &vec![I256::from_i128(1000)]);
}

#[test]
fn eth_require_segment_keeps_the_evaluation_type() {
    let absolute = EthRequireIntentSegment::new(standard(3), constant(0), EvaluationType::ABSOLUTE);
    let relative = EthRequireIntentSegment::new(standard(3), constant(0), EvaluationType::RELATIVE);
    assert_eq!(absolute.standard_id(), standard(3));
    assert_eq!(absolute.curve().flags(), 0);
    assert_eq!(relative.curve().flags(), 1);
    assert_eq!(absolute.curve().params(), &vec![I256::zero()]);
    assert_ne!(absolute, relative);
}

#[test]
fn call_and_nonce_segments_keep_what_they_are_given() {
    let call = CallIntentSegment::new(standard(4), vec![0xca, 0xfe]);
    assert_eq!(call.standard_id(), standard(4));
    assert_eq!(call.call_data(), &vec![0xcau8, 0xfe]);

    let nonce = SequentialNonceSegment::new(standard(5), U256::from_u128(1));
    assert_eq!(nonce.standard_id(), standard(5));
    assert_eq!(nonce.nonce(), U256::from_u128(1));
}

#[test]
fn every_kind_of_segment_answers_with_its_standard() {
    let segments = vec![
        IntentSegment::Erc20Release(Erc20ReleaseIntentSegment::new(standard(1), contract(1), constant(1))),
        IntentSegment::EthRelease(EthReleaseIntentSegment::new(standard(2), constant(1))),
        IntentSegment::EthRequire(EthRequireIntentSegment::new(
            standard(3),
            constant(1),
            EvaluationType::ABSOLUTE,
        )),
        IntentSegment::Call(CallIntentSegment::new(standard(4), vec![1])),
        IntentSegment::SequentialNonce(SequentialNonceSegment::new(standard(5), U256::zero())),
        IntentSegment::AssetBasedIntent(standard(6), AssetBasedIntentSegment::new(vec![2])),
    ];
    for (index, segment) in segments.iter().enumerate() {
        assert_eq!(segment.standard_id(), standard(index as u8 + 1));
    }
}
