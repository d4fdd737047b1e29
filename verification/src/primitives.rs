//! The primitive values that intents carry: account addresses and 256-bit
//! words, unsigned and signed.
//!
//! A 256-bit word is held as four 64-bit limbs, the least significant first.

use vstd::prelude::*;

verus! {

/// Raw bytes of a call or a signature.
pub type Bytes = Vec<u8>;

/// Identifies the on-chain interpreter ("standard") that decodes a segment.
pub type StandardId = [u8; 32];

/// 2^64, the weight of the second limb of a word.
pub open spec fn two_pow_64() -> int {
    0x1_0000_0000_0000_0000int
}

/// 2^128, the weight of the third limb of a word.
pub open spec fn two_pow_128() -> int {
    0x1_0000_0000_0000_0000_0000_0000_0000_0000int
}

/// 2^192, the weight of the fourth limb of a word.
pub open spec fn two_pow_192() -> int {
    0x1_0000_0000_0000_0000_0000_0000_0000_0000_0000_0000_0000_0000int
}

/// 2^256, the number of distinct 256-bit words.
pub open spec fn two_pow_256() -> int {
    0x1_0000_0000_0000_0000_0000_0000_0000_0000_0000_0000_0000_0000_0000_0000_0000_0000int
}

/// The number that four limbs stand for, the least significant first.
pub open spec fn limbs_value(limbs: Seq<u64>) -> int
    recommends
        limbs.len() == 4,
{
    limbs[0] + limbs[1] * two_pow_64() + limbs[2] * two_pow_128() + limbs[3] * two_pow_192()
}

/// The 256-bit two's-complement word that stands for `v`.
pub open spec fn twos_complement(v: int) -> int
    recommends
        -two_pow_256() / 2 <= v < two_pow_256() / 2,
{
    if v >= 0 {
        v
    } else {
        two_pow_256() + v
    }
}

/// The signed number whose 256-bit two's complement is the word `raw`.
pub open spec fn signed_reading(raw: int) -> int
    recommends
        0 <= raw < two_pow_256(),
{
    if raw >= two_pow_256() / 2 {
        raw - two_pow_256()
    } else {
        raw
    }
}

/// The value of four limbs lies in `0 .. 2^256`.
pub proof fn law_limbs_value_in_range(limbs: Seq<u64>)
    requires
        limbs.len() == 4,
    ensures
        0 <= limbs_value(limbs) < two_pow_256(),
{
}

/// Signed reading and two's complement undo each other.
pub proof fn law_signed_reading_inverts(raw: int, v: int)
    ensures
        0 <= raw < two_pow_256() ==> {
            &&& -two_pow_256() / 2 <= signed_reading(raw) < two_pow_256() / 2
            &&& twos_complement(signed_reading(raw)) == raw
        },
        -two_pow_256() / 2 <= v < two_pow_256() / 2 ==> {
            &&& 0 <= twos_complement(v) < two_pow_256()
            &&& signed_reading(twos_complement(v)) == v
        },
{
}

/// A 20-byte account or contract address. It is an opaque identifier: nothing
/// here validates it.
#[derive(Clone, Copy, Debug, PartialEq, Eq, Hash)]
pub struct Address {
    pub bytes: [u8; 20],
}

impl View for Address {
    type V = Seq<u8>;

    open spec fn view(&self) -> Seq<u8> {
        self.bytes@
    }
}

/// Twenty zero bytes: the address that stands for "no contract".
pub open spec fn zero_address() -> Seq<u8> {
    Seq::new(20, |i: int| 0u8)
}

impl Default for Address {
    /// The all-zero address.
    fn default() -> (address: Address)
        ensures
            address@ == zero_address(),
    {
        Address::zero()
    }
}

impl Address {
    /// The address made of the given bytes.
    pub fn new(bytes: [u8; 20]) -> (address: Address)
        ensures
            address.bytes == bytes,
    {
        Address { bytes }
    }

    /// The all-zero address.
    pub fn zero() -> (address: Address)
        ensures
            address@ == zero_address(),
    {
        let address = Address { bytes: [0u8; 20] };
        address
    }
}

/// An unsigned 256-bit word.
#[derive(Clone, Copy, Debug, PartialEq, Eq, Hash)]
pub struct U256 {
    /// The four 64-bit limbs, the least significant first.
    pub limbs: [u64; 4],
}

impl View for U256 {
    type V = int;

    /// The number that the word stands for, in `0 .. 2^256`.
    open spec fn view(&self) -> int {
        limbs_value(self.limbs@)
    }
}

impl Default for U256 {
    /// The word 0.
    fn default() -> (word: U256)
        ensures
            word@ == 0,
            word.limbs@ == seq![0u64, 0u64, 0u64, 0u64],
    {
        U256::zero()
    }
}

impl U256 {
    /// The word with the given limbs, the least significant first.
    pub fn from_limbs(limbs: [u64; 4]) -> (word: U256)
        ensures
            word.limbs == limbs,
    {
        U256 { limbs }
    }

    /// The word that stands for `value`.
    pub fn from_u128(value: u128) -> (word: U256)
        ensures
            word@ == value,
    {
        let low: u64 = (value & 0xffff_ffff_ffff_ffff) as u64;
        let high: u64 = (value >> 64) as u64;
        proof {
            assert((value & 0xffff_ffff_ffff_ffff) <= 0xffff_ffff_ffff_ffff && (value >> 64)
                <= 0xffff_ffff_ffff_ffff && value == (value & 0xffff_ffff_ffff_ffff) + (value
                >> 64) * 0x1_0000_0000_0000_0000) by (bit_vector);
        }
        U256 { limbs: [low, high, 0, 0] }
    }

    /// The word 0.
    pub fn zero() -> (word: U256)
        ensures
            word@ == 0,
            word.limbs@ == seq![0u64, 0u64, 0u64, 0u64],
    {
        U256 { limbs: [0, 0, 0, 0] }
    }
}

/// A signed 256-bit word in two's complement.
#[derive(Clone, Copy, Debug, PartialEq, Eq, Hash)]
pub struct I256 {
    /// The bits of the word.
    pub raw: U256,
}

impl View for I256 {
    type V = int;

    /// The signed number that the word stands for, in `-2^255 .. 2^255`.
    open spec fn view(&self) -> int {
        signed_reading(self.raw@)
    }
}

impl Default for I256 {
    /// The signed word 0.
    fn default() -> (word: I256)
        ensures
            word@ == 0,
            word.raw@ == 0,
    {
        I256::zero()
    }
}

impl I256 {
    /// Reads the bits of an unsigned word as a signed one.
    pub fn from_raw(raw: U256) -> (word: I256)
        ensures
            word.raw == raw,
    {
        I256 { raw }
    }

    /// The word's bits, read as an unsigned number.
    pub fn into_raw(self) -> (raw: U256)
        ensures
            raw == self.raw,
    {
        self.raw
    }

    /// The signed word that stands for `value`, sign-extended to 256 bits.
    pub fn from_i128(value: i128) -> (word: I256)
        ensures
            word@ == value,
            word.raw@ == twos_complement(value as int),
    {
        if value >= 0 {
            I256 { raw: U256::from_u128(value as u128) }
        } else {
            // -(value + 1) lies in 0 ..= i128::MAX, so the low half is
            // 2^128 + value without a wrapping cast.
            let low_half: u128 = u128::MAX - ((-(value + 1)) as u128);
            let low = U256::from_u128(low_half);
            I256 { raw: U256 { limbs: [low.limbs[0], low.limbs[1], u64::MAX, u64::MAX] } }
        }
    }

    /// The signed word 0.
    pub fn zero() -> (word: I256)
        ensures
            word@ == 0,
            word.raw@ == 0,
    {
        I256 { raw: U256 { limbs: [0, 0, 0, 0] } }
    }
}

} // verus!
