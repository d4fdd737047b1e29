//! The contract ABI, as far as intents need it: single words, and the
//! encodings of a curve and of an asset-based segment.
//!
//! The bytes are made by `ethers`. What is stated here is what they are.

use vstd::prelude::*;
use ethers::abi::{AbiDecode, AbiEncode};
use ethers::types as ethers_types;
use crate::curve_builder::{AssetBasedIntentCurve, AssetBasedIntentCurveView};
use crate::curve_type::word_values;
use crate::error::EncodingError;
use crate::primitives::{two_pow_128, twos_complement, Address, I256, U256};
use crate::segment_builder::curve_views;

verus! {

/// `ethers::abi::AbiError`, the error of the ABI codec of ethers. It is only
/// passed on: nothing is said of what it holds.
#[verifier::external_type_specification]
#[verifier::external_body]
pub struct ExAbiError(ethers::abi::AbiError);

/// 256 to the power `width`: the number of byte strings of that length.
pub open spec fn pow256(width: nat) -> nat
    decreases width,
{
    if width == 0 {
        1
    } else {
        256 * pow256((width - 1) as nat)
    }
}

/// The number that `bytes` spell in base 256, most significant byte first.
pub open spec fn be_value(bytes: Seq<u8>) -> nat
    decreases bytes.len(),
{
    if bytes.len() == 0 {
        0
    } else {
        be_value(bytes.drop_last()) * 256 + bytes.last() as nat
    }
}

/// The `width` low base-256 digits of `value`, most significant byte first.
pub open spec fn be_bytes(value: nat, width: nat) -> Seq<u8>
    decreases width,
{
    if width == 0 {
        Seq::<u8>::empty()
    } else {
        be_bytes(value / 256, (width - 1) as nat).push((value % 256) as u8)
    }
}

/// The ABI word of an unsigned 128-bit number: 32 bytes, big-endian, the
/// upper 16 of them zero.
pub open spec fn abi_word(value: u128) -> Seq<u8> {
    be_bytes(value as nat, 32)
}

/// The number in the low 128 bits of a big-endian word.
pub open spec fn word_low_u128(word: Seq<u8>) -> u128 {
    (be_value(word) % (two_pow_128() as nat)) as u128
}

/// `be_bytes` yields exactly `width` bytes.
pub proof fn lemma_be_bytes_len(value: nat, width: nat)
    ensures
        be_bytes(value, width).len() == width,
    decreases width,
{
    if width > 0 {
        lemma_be_bytes_len(value / 256, (width - 1) as nat);
    }
}

/// Reading back the digits of a number that fits in `width` bytes gives the
/// number.
pub proof fn lemma_be_round_trip(value: nat, width: nat)
    requires
        value < pow256(width),
    ensures
        be_value(be_bytes(value, width)) == value,
    decreases width,
{
    if width > 0 {
        let rest = be_bytes(value / 256, (width - 1) as nat);
        lemma_be_round_trip(value / 256, (width - 1) as nat);
        assert(be_bytes(value, width).drop_last() =~= rest);
    }
}

/// 256^32 is 2^256, so every 128-bit number fits in a word.
pub proof fn lemma_pow256_word()
    ensures
        pow256(16) == two_pow_128(),
        pow256(32) == two_pow_128() * two_pow_128(),
{
    reveal_with_fuel(pow256, 33);
}

/// A 128-bit number survives the trip through its ABI word.
pub proof fn law_word_round_trip(value: u128)
    ensures
        abi_word(value).len() == 32,
        word_low_u128(abi_word(value)) == value,
{
    lemma_pow256_word();
    lemma_be_bytes_len(value as nat, 32);
    assert(two_pow_128() * two_pow_128() >= two_pow_128()) by (nonlinear_arith);
    lemma_be_round_trip(value as nat, 32);
    vstd::arithmetic::div_mod::lemma_small_mod(value as nat, two_pow_128() as nat);
}

/// `<u128 as AbiEncode>::encode` of ethers: the number as one ABI word, which
/// is the 32-byte big-endian form of the number widened to 256 bits.
#[verifier::external_body]
fn abi_encode_u128(value: u128) -> (bytes: Vec<u8>)
    ensures
        bytes@ == abi_word(value),
{
    AbiEncode::encode(value)
}

/// `<u128 as AbiDecode>::decode` of ethers: it fails on fewer than 32 bytes;
/// otherwise it reads the first 32 bytes as a big-endian number, keeps the low
/// 128 bits of it and ignores whatever follows.
#[verifier::external_body]
fn abi_decode_u128(bytes: &Vec<u8>) -> (decoded: Result<u128, ethers::abi::AbiError>)
    ensures
        decoded is Ok <==> bytes@.len() >= 32,
        decoded is Ok ==> decoded->Ok_0 == word_low_u128(bytes@.subrange(0, 32)),
{
    <u128 as AbiDecode>::decode(bytes)
}

/// `<U256 as AbiEncode>::encode` of ethers: the number as one ABI word, its
/// 32-byte big-endian form.
#[verifier::external_body]
pub(crate) fn abi_encode_u256(word: U256) -> (bytes: Vec<u8>)
    ensures
        bytes@ == be_bytes(word@ as nat, 32),
{
    AbiEncode::encode(ethers_types::U256(word.limbs))
}

/// The most bytes that an encoding may have. The encoder of ethers counts
/// the bytes of heads and tails in 32 bits, and it reserves a 32-byte word
/// for every byte that it counts, which must stay within the largest
/// allocation. So the limit is 2^32 - 1 where pointers have 64 bits and
/// 2^26 - 1 where they have 32.
pub open spec fn max_encoding_size() -> int {
    if isize::MAX / 32 < 0xffff_ffff {
        isize::MAX / 32
    } else {
        0xffff_ffff
    }
}

/// The most bytes that an encoding may have on this machine.
pub fn encoding_size_limit() -> (limit: u64)
    ensures
        limit == max_encoding_size(),
        limit >= 0x03ff_ffff,
{
    let room: u64 = (isize::MAX as u64) / 32;
    if room < 0xffff_ffff {
        room
    } else {
        0xffff_ffff
    }
}

/// The ABI word of an address: twelve zero bytes, then the twenty bytes of
/// the address.
pub open spec fn address_word(address: Seq<u8>) -> Seq<u8> {
    Seq::new(12, |i: int| 0u8) + address
}

/// The ABI words of signed numbers, one after the other: each number as the
/// 32 big-endian bytes of its two's complement.
pub open spec fn signed_words(values: Seq<int>) -> Seq<u8>
    decreases values.len(),
{
    if values.len() == 0 {
        Seq::<u8>::empty()
    } else {
        signed_words(values.drop_last()) + be_bytes(twos_complement(values.last()) as nat, 32)
    }
}

/// The number of bytes of the encoding of a curve with `params` parameters:
/// four words of head, the length of the vector, and a word for each
/// parameter.
pub open spec fn curve_encoding_size(params: nat) -> nat {
    160 + 32 * params
}

/// The ABI encoding of the tuple of a curve's parts, `(uint256 asset_id,
/// address asset_contract, uint128 flags, int256[] params)`: the three fixed
/// parts in place, the offset of the vector (128, the size of the head),
/// then the vector as its length and its entries.
pub open spec fn abi_curve_encoding(
    asset_id: int,
    asset_contract: Seq<u8>,
    flags: u128,
    params: Seq<int>,
) -> Seq<u8> {
    be_bytes(asset_id as nat, 32) + address_word(asset_contract) + be_bytes(flags as nat, 32)
        + be_bytes(128, 32) + be_bytes(params.len(), 32) + signed_words(params)
}

/// `signed_words` yields 32 bytes for each number.
pub proof fn lemma_signed_words_len(values: Seq<int>)
    ensures
        signed_words(values).len() == 32 * values.len(),
    decreases values.len(),
{
    if values.len() > 0 {
        lemma_signed_words_len(values.drop_last());
        lemma_be_bytes_len(twos_complement(values.last()) as nat, 32);
    }
}

/// The encoding of a curve has the size that `curve_encoding_size` gives.
pub proof fn law_curve_encoding_len(
    asset_id: int,
    asset_contract: Seq<u8>,
    flags: u128,
    params: Seq<int>,
)
    requires
        asset_contract.len() == 20,
    ensures
        abi_curve_encoding(asset_id, asset_contract, flags, params).len() == curve_encoding_size(
            params.len(),
        ),
{
    lemma_be_bytes_len(asset_id as nat, 32);
    lemma_be_bytes_len(flags as nat, 32);
    lemma_be_bytes_len(128, 32);
    lemma_be_bytes_len(params.len(), 32);
    lemma_signed_words_len(params);
}

/// `AbiEncode::encode` of ethers on the tuple `(U256, Address, u128,
/// Vec<I256>)` made of the four parts: the head of three words and an
/// offset, then the vector with its length in front. The bound keeps the
/// encoder's sums and its reservation from overflowing.
#[verifier::external_body]
pub(crate) fn abi_encode_curve(
    asset_id: U256,
    asset_contract: Address,
    flags: u128,
    params: &Vec<I256>,
) -> (bytes: Vec<u8>)
    requires
        curve_encoding_size(params@.len()) <= max_encoding_size(),
    ensures
        bytes@ == abi_curve_encoding(asset_id@, asset_contract@, flags, word_values(params@)),
{
    let params: Vec<ethers_types::I256> = params.iter().map(
        |word| ethers_types::I256::from_raw(ethers_types::U256(word.raw.limbs)),
    ).collect();
    let asset_contract = ethers_types::H160(asset_contract.bytes);
    AbiEncode::encode((ethers_types::U256(asset_id.limbs), asset_contract, flags, params))
}

/// The number of bytes that a list of curves adds to the encoding of a
/// segment: for each curve a word of offset and the encoding of the curve.
pub open spec fn curves_encoding_size(curves: Seq<AssetBasedIntentCurveView>) -> nat
    decreases curves.len(),
{
    if curves.len() == 0 {
        0
    } else {
        curves_encoding_size(curves.drop_last()) + 32 + curve_encoding_size(
            curves.last().params.len(),
        )
    }
}

/// The number of bytes of the encoding of an asset-based segment: three
/// offsets; the call as its length and its bytes, filled up to whole words;
/// each list of curves as its length and what `curves_encoding_size` counts.
pub open spec fn segment_encoding_size(
    call_data: Seq<u8>,
    asset_releases: Seq<AssetBasedIntentCurveView>,
    asset_requirements: Seq<AssetBasedIntentCurveView>,
) -> nat {
    96 + (32 + 32 * ((call_data.len() + 31) / 32)) + (32 + curves_encoding_size(asset_releases))
        + (32 + curves_encoding_size(asset_requirements))
}

/// The bytes that `AbiEncode::encode` of ethers gives for the tuple of an
/// asset-based segment's parts, `(bytes call_data, curve[] asset_releases,
/// curve[] asset_requirements)`, each curve being the tuple of
/// [`abi_curve_encoding`]. The nested offset tables of the contract ABI are
/// the work of ethers and are not written out here.
pub uninterp spec fn abi_segment_encoding(
    call_data: Seq<u8>,
    asset_releases: Seq<AssetBasedIntentCurveView>,
    asset_requirements: Seq<AssetBasedIntentCurveView>,
) -> Seq<u8>;

/// `AbiEncode::encode` of ethers on the tuple `(Bytes, Vec<curve>,
/// Vec<curve>)`, where a curve is the tuple `(U256, Address, u128,
/// Vec<I256>)` of its parts. The result depends on the parts alone, and it
/// has as many bytes as the encoder counts for heads and tails, which is
/// what `segment_encoding_size` adds up. The bound keeps the encoder's sums
/// and its reservation from overflowing.
#[verifier::external_body]
pub(crate) fn abi_encode_segment(
    call_data: &Vec<u8>,
    asset_releases: &Vec<AssetBasedIntentCurve>,
    asset_requirements: &Vec<AssetBasedIntentCurve>,
) -> (bytes: Vec<u8>)
    requires
        segment_encoding_size(
            call_data@,
            curve_views(asset_releases@),
            curve_views(asset_requirements@),
        ) <= max_encoding_size(),
    ensures
        bytes@ == abi_segment_encoding(
            call_data@,
            curve_views(asset_releases@),
            curve_views(asset_requirements@),
        ),
        bytes@.len() == segment_encoding_size(
            call_data@,
            curve_views(asset_releases@),
            curve_views(asset_requirements@),
        ),
{
    let tuple = |curve: &AssetBasedIntentCurve| {
        let params: Vec<ethers_types::I256> = curve.params().iter().map(
            |word| ethers_types::I256::from_raw(ethers_types::U256(word.raw.limbs)),
        ).collect();
        let asset_contract = ethers_types::H160(curve.asset_contract().bytes);
        (ethers_types::U256(curve.asset_id().limbs), asset_contract, curve.flags(), params)
    };
    let asset_releases: Vec<_> = asset_releases.iter().map(tuple).collect();
    let asset_requirements: Vec<_> = asset_requirements.iter().map(tuple).collect();
    let call_data = ethers_types::Bytes::from(call_data.clone());
    AbiEncode::encode((call_data, asset_releases, asset_requirements))
}

/// Encodes `value` as one ABI word.
pub fn encode_word(value: u128) -> (bytes: Vec<u8>)
    ensures
        bytes@ == abi_word(value),
        bytes@.len() == 32,
{
    proof {
        law_word_round_trip(value);
    }
    abi_encode_u128(value)
}

/// Decodes the 128-bit number in the first ABI word of `bytes`. The upper 16
/// bytes of the word and all bytes after it are not looked at.
pub fn decode_word(bytes: &Vec<u8>) -> (decoded: Result<u128, EncodingError>)
    ensures
        bytes@.len() >= 32 ==> decoded == Ok::<u128, EncodingError>(
            word_low_u128(bytes@.subrange(0, 32)),
        ),
        bytes@.len() < 32 ==> decoded == Err::<u128, EncodingError>(EncodingError::TruncatedWord),
{
    match abi_decode_u128(bytes) {
        Ok(value) => Ok(value),
        Err(_) => Err(EncodingError::TruncatedWord),
    }
}

} // verus!
