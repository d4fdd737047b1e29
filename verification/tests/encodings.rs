use ethers::abi::{encode, Token};
use intent_builder::abi::encoding_size_limit;
use intent_builder::asset_type::AssetType;
use intent_builder::curve_builder::AssetBasedIntentCurve;
use intent_builder::curve_type::{
    ConstantCurveParameters, CurveParameters, ExponentialCurveParameters, LinearCurveParameters,
};
use intent_builder::evaluation_type::EvaluationType;
use intent_builder::intent_segment::{
    CallIntentSegment, Erc20ReleaseIntentSegment, EthReleaseIntentSegment,
    EthRequireIntentSegment, IntentSegment, SequentialNonceSegment,
};
use intent_builder::primitives::{Address, I256, U256};
use intent_builder::segment_builder::AssetBasedIntentSegment;
use intent_builder::user_intent::UserIntent;

fn constant(value: i128) -> CurveParameters {
    CurveParameters::Constant(ConstantCurveParameters::new(I256::from_i128(value)))
}

fn linear(m: i128, b: i128, max: i128) -> CurveParameters {
    CurveParameters::Linear(LinearCurveParameters::new(
        I256::from_i128(m),
        I256::from_i128(b),
        I256::from_i128(max),
    ))
}

fn word_bytes(value: u128) -> Vec<u8> {
    let mut bytes = vec![0u8; 16];
    bytes.extend_from_slice(&value.to_be_bytes());
    bytes
}

fn signed_word_bytes(value: i128) -> Vec<u8> {
    let fill = if value < 0 { 0xffu8 } else { 0 };
    let mut bytes = vec![fill; 16];
    bytes.extend_from_slice(&value.to_be_bytes());
    bytes
}

fn address_word_bytes(address: Address) -> Vec<u8> {
    let mut bytes = vec![0u8; 12];
    bytes.extend_from_slice(&address.bytes);
    bytes
}

/// The tokens of a curve, built without the library's encoder.
fn curve_token(curve: &AssetBasedIntentCurve) -> Token {
    Token::Tuple(vec![
        Token::Uint(ethers::types::U256(curve.asset_id().limbs)),
        Token::Address(ethers::types::H160(curve.asset_contract().bytes)),
        Token::Uint(ethers::types::U256::from(curve.flags())),
        Token::Array(
            curve
                .params()
                .iter()
                .map(|word| Token::Int(ethers::types::U256(word.raw.limbs)))
                .collect(),
        ),
    ])
}

#[test]
fn curve_encoding_lays_out_head_and_tail() {
    let token = Address::new([0x11; 20]);
    let curve = AssetBasedIntentCurve::requirement(
        token,
        U256::from_u128(7),
        AssetType::ERC20,
        linear(2, -1, 100),
        EvaluationType::RELATIVE,
    );
    let mut expected = Vec::new();
    expected.extend(word_bytes(7));
    expected.extend(address_word_bytes(token));
    expected.extend(word_bytes(0x0105));
    expected.extend(word_bytes(4 * 32));
    expected.extend(word_bytes(3));
    expected.extend(signed_word_bytes(2));
    expected.extend(signed_word_bytes(-1));
    expected.extend(signed_word_bytes(100));
    assert_eq!(curve.encode(), Ok(expected));
    assert_eq!(curve.encoding_size(), Some(8 * 32));
}

#[test]
fn curve_encoding_agrees_with_the_tokens_of_ethers() {
    let curves = vec![
        AssetBasedIntentCurve::release(Address::zero(), U256::zero(), AssetType::ETH, constant(1000)),
        AssetBasedIntentCurve::release(
            Address::new([0xab; 20]),
            U256::from_limbs([1, 2, 3, 4]),
            AssetType::ERC1155,
            linear(-5, 6, 7),
        ),
        AssetBasedIntentCurve::new(U256::from_u128(u128::MAX), Address::new([1; 20]), u128::MAX, vec![]),
    ];
    for curve in curves {
        let Token::Tuple(parts) = curve_token(&curve) else { unreachable!() };
        assert_eq!(curve.encode(), Ok(encode(&parts)));
        assert_eq!(curve.encoding_size(), Some(encode(&parts).len() as u64));
    }
}

#[test]
fn curve_encoding_tells_curves_apart() {
    let a = AssetBasedIntentCurve::release(Address::zero(), U256::zero(), AssetType::ETH, constant(1));
    let b = AssetBasedIntentCurve::release(Address::zero(), U256::zero(), AssetType::ETH, constant(2));
    let c = AssetBasedIntentCurve::release(Address::zero(), U256::zero(), AssetType::ERC20, constant(1));
    assert_ne!(a.encode(), b.encode());
    assert_ne!(a.encode(), c.encode());
    assert_eq!(a.encode(), a.clone().encode());
}

#[test]
fn segment_encoding_agrees_with_the_tokens_of_ethers() {
    let mut segment = AssetBasedIntentSegment::new(vec![0xde, 0xad, 0xbe, 0xef]);
    segment
        .add_asset_release_curve(Address::new([1; 20]), U256::from_u128(1), AssetType::ERC20, constant(9))
        .add_asset_release_curve(Address::new([2; 20]), U256::from_u128(2), AssetType::ERC721_ID, linear(1, 2, 3))
        .add_asset_requirement_curve(
            Address::zero(),
            U256::zero(),
            AssetType::ETH,
            constant(-4),
            EvaluationType::RELATIVE,
        );
    let expected = encode(&[
        Token::Bytes(vec![0xde, 0xad, 0xbe, 0xef]),
        Token::Array(segment.asset_releases().iter().map(curve_token).collect()),
        Token::Array(segment.asset_requirements().iter().map(curve_token).collect()),
    ]);
    assert_eq!(segment.encoding_size(), Some(expected.len() as u64));
    assert_eq!(segment.encode(), Ok(expected));
    assert_ne!(segment.encode(), AssetBasedIntentSegment::new(vec![0xde, 0xad, 0xbe, 0xef]).encode());
}

#[test]
fn empty_segment_encoding() {
    let segment = AssetBasedIntentSegment::new(Vec::new());
    let mut expected = Vec::new();
    expected.extend(word_bytes(3 * 32));
    expected.extend(word_bytes(4 * 32));
    expected.extend(word_bytes(5 * 32));
    expected.extend(word_bytes(0));
    expected.extend(word_bytes(0));
    expected.extend(word_bytes(0));
    assert_eq!(segment.encode(), Ok(expected));
    assert_eq!(segment.encoding_size(), Some(6 * 32));
}

#[test]
fn segment_from_parts_is_the_segment_built_step_by_step() {
    let release = AssetBasedIntentCurve::release(Address::zero(), U256::zero(), AssetType::ETH, constant(1));
    let requirement = AssetBasedIntentCurve::requirement(
        Address::zero(),
        U256::zero(),
        AssetType::ETH,
        constant(2),
        EvaluationType::ABSOLUTE,
    );
    let mut built = AssetBasedIntentSegment::new(vec![7]);
    built.add_asset_release_curve(Address::zero(), U256::zero(), AssetType::ETH, constant(1));
    built.add_asset_requirement_curve(
        Address::zero(),
        U256::zero(),
        AssetType::ETH,
        constant(2),
        EvaluationType::ABSOLUTE,
    );
    let assembled = AssetBasedIntentSegment::from_parts(vec![7], vec![release], vec![requirement]);
    assert_eq!(assembled, built);
    assert_eq!(assembled.encode(), built.encode());
}

#[test]
fn payload_of_each_kind_of_segment() {
    let token = Address::new([0x22; 20]);
    let erc20 = Erc20ReleaseIntentSegment::new([1; 32], token, constant(5));
    let eth = EthReleaseIntentSegment::new([2; 32], constant(1000));
    let require = EthRequireIntentSegment::new([3; 32], constant(0), EvaluationType::RELATIVE);
    assert_eq!(IntentSegment::Erc20Release(erc20.clone()).payload(), erc20.curve().encode());
    assert_eq!(IntentSegment::EthRelease(eth.clone()).payload(), eth.curve().encode());
    assert_eq!(IntentSegment::EthRequire(require.clone()).payload(), require.curve().encode());
    assert!(erc20.curve().encode().is_ok());

    let call = IntentSegment::Call(CallIntentSegment::new([4; 32], vec![1, 2, 3]));
    assert_eq!(call.payload(), Ok(vec![1u8, 2, 3]));

    let nonce = IntentSegment::SequentialNonce(SequentialNonceSegment::new(
        [5; 32],
        U256::from_limbs([4, 3, 2, 1]),
    ));
    let mut nonce_word = Vec::new();
    nonce_word.extend_from_slice(&1u64.to_be_bytes());
    nonce_word.extend_from_slice(&2u64.to_be_bytes());
    nonce_word.extend_from_slice(&3u64.to_be_bytes());
    nonce_word.extend_from_slice(&4u64.to_be_bytes());
    assert_eq!(nonce.payload(), Ok(nonce_word));

    let asset_based = AssetBasedIntentSegment::new(vec![9]);
    assert_eq!(
        IntentSegment::AssetBasedIntent([6; 32], asset_based.clone()).payload(),
        asset_based.encode()
    );
}

#[test]
fn encoded_segment_is_standard_and_payload() {
    let segment = IntentSegment::SequentialNonce(SequentialNonceSegment::new([5; 32], U256::from_u128(1)));
    assert_eq!(segment.encode(), Ok(([5u8; 32], word_bytes(1))));
    let call = IntentSegment::Call(CallIntentSegment::new([4; 32], Vec::new()));
    assert_eq!(call.encode(), Ok(([4u8; 32], Vec::new())));
}

#[test]
fn intent_encodes_its_segments_in_order() {
    let segments = vec![
        IntentSegment::EthRelease(EthReleaseIntentSegment::new([2; 32], constant(1000))),
        IntentSegment::Call(CallIntentSegment::new([4; 32], vec![0xaa])),
        IntentSegment::SequentialNonce(SequentialNonceSegment::new([5; 32], U256::from_u128(1))),
        IntentSegment::Call(CallIntentSegment::new([4; 32], vec![0xaa])),
    ];
    let mut intent = UserIntent::create(Address::new([7; 20]), 0);
    assert_eq!(intent.encode_segments(), Ok(Vec::new()));
    for segment in &segments {
        assert_eq!(intent.add_segment(segment.clone()), Ok(()));
    }
    let expected: Vec<([u8; 32], Vec<u8>)> =
        segments.iter().map(|segment| segment.encode().unwrap()).collect();
    let encoded = intent.encode_segments().unwrap();
    assert_eq!(encoded, expected);
    assert_eq!(encoded[1], ([4u8; 32], vec![0xaau8]));
    assert_eq!(encoded[2], ([5u8; 32], word_bytes(1)));
}

#[test]
fn encoding_size_is_the_length_of_the_encoding() {
    let exponential = CurveParameters::Exponential(ExponentialCurveParameters::new(
        I256::from_i128(1),
        I256::from_i128(2),
        I256::from_i128(3),
        I256::from_i128(4),
    ));
    for call_length in [0usize, 1, 31, 32, 33, 64, 100] {
        let mut segment = AssetBasedIntentSegment::new(vec![0x5a; call_length]);
        assert_eq!(segment.encoding_size(), Some(segment.encode().unwrap().len() as u64));
        segment.add_asset_release_curve(Address::zero(), U256::zero(), AssetType::ETH, constant(1));
        assert_eq!(segment.encoding_size(), Some(segment.encode().unwrap().len() as u64));
        segment.add_asset_requirement_curve(
            Address::zero(),
            U256::zero(),
            AssetType::ERC20,
            exponential,
            EvaluationType::RELATIVE,
        );
        segment.add_asset_requirement_curve(
            Address::zero(),
            U256::zero(),
            AssetType::ERC20,
            linear(1, 2, 3),
            EvaluationType::ABSOLUTE,
        );
        assert_eq!(segment.encoding_size(), Some(segment.encode().unwrap().len() as u64));
    }
    let empty_call = AssetBasedIntentSegment::new(Vec::new());
    assert_eq!(empty_call.encoding_size(), Some(192));
    let one_byte = AssetBasedIntentSegment::new(vec![1]);
    assert_eq!(one_byte.encoding_size(), Some(224));
}

#[test]
fn curve_encoding_size_counts_the_parameters() {
    for count in [0usize, 1, 3, 4, 17] {
        let curve = AssetBasedIntentCurve::new(
            U256::zero(),
            Address::zero(),
            0,
            vec![I256::from_i128(-1); count],
        );
        assert_eq!(curve.encoding_size(), Some(160 + 32 * count as u64));
        assert_eq!(curve.encode().unwrap().len(), 160 + 32 * count);
    }
}

#[test]
fn encoding_size_limit_follows_the_width_of_pointers() {
    let expected: u64 = if usize::BITS == 64 { 0xffff_ffff } else { (isize::MAX as u64) / 32 };
    assert_eq!(encoding_size_limit(), expected);
    assert!(encoding_size_limit() >= 0x03ff_ffff);
}
