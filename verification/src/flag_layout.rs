//! The bit layout of a curve's flag word.
//!
//! The settlement protocol on chain reads the word with these very offsets
//! and masks, so this table is the one place where the layout is written
//! down. From the least significant bit upwards:
//!
//! | bits    | field           |
//! |---------|-----------------|
//! | 0 – 1   | evaluation type |
//! | 2 – 7   | curve type      |
//! | 8 – 15  | asset type      |
//! | 16 –127 | unused, zero    |

use vstd::prelude::*;

verus! {

/// Position of the lowest bit of the evaluation type.
pub const EVALUATION_TYPE_OFFSET: u32 = 0;

/// Number of bits of the evaluation type.
pub const EVALUATION_TYPE_BITS: u32 = 2;

/// The bits of the evaluation type, in place.
pub const EVALUATION_TYPE_MASK: u128 = 0x0003;

/// The least number that does not fit the evaluation type's field.
pub const EVALUATION_TYPE_LIMIT: u128 = 4;

/// Position of the lowest bit of the curve type.
pub const CURVE_TYPE_OFFSET: u32 = 2;

/// Number of bits of the curve type.
pub const CURVE_TYPE_BITS: u32 = 6;

/// The bits of the curve type, in place.
pub const CURVE_TYPE_MASK: u128 = 0x00fc;

/// The least number that does not fit the curve type's field.
pub const CURVE_TYPE_LIMIT: u128 = 64;

/// Position of the lowest bit of the asset type.
pub const ASSET_TYPE_OFFSET: u32 = 8;

/// Number of bits of the asset type.
pub const ASSET_TYPE_BITS: u32 = 8;

/// The bits of the asset type, in place.
pub const ASSET_TYPE_MASK: u128 = 0xff00;

/// The least number that does not fit the asset type's field.
pub const ASSET_TYPE_LIMIT: u128 = 256;

/// Each of the three discriminants fits the field allotted to it.
pub open spec fn discriminants_fit(
    asset_type: u128,
    curve_type: u128,
    evaluation_type: u128,
) -> bool {
    &&& asset_type < ASSET_TYPE_LIMIT
    &&& curve_type < CURVE_TYPE_LIMIT
    &&& evaluation_type < EVALUATION_TYPE_LIMIT
}

/// The flag word that holds the three discriminants, each shifted to its
/// field.
pub open spec fn flag_word(asset_type: u128, curve_type: u128, evaluation_type: u128) -> u128 {
    (asset_type << ASSET_TYPE_OFFSET) | (curve_type << CURVE_TYPE_OFFSET) | (evaluation_type
        << EVALUATION_TYPE_OFFSET)
}

/// The asset type that a reader of the layout finds in `word`.
pub open spec fn asset_type_field(word: u128) -> u128 {
    (word & ASSET_TYPE_MASK) >> ASSET_TYPE_OFFSET
}

/// The curve type that a reader of the layout finds in `word`.
pub open spec fn curve_type_field(word: u128) -> u128 {
    (word & CURVE_TYPE_MASK) >> CURVE_TYPE_OFFSET
}

/// The evaluation type that a reader of the layout finds in `word`.
pub open spec fn evaluation_type_field(word: u128) -> u128 {
    (word & EVALUATION_TYPE_MASK) >> EVALUATION_TYPE_OFFSET
}

/// The table agrees with itself: each limit and mask is the one that its
/// offset and width give, the fields do not overlap, and together they fill
/// the low 16 bits.
pub proof fn law_layout_consistent()
    ensures
        EVALUATION_TYPE_LIMIT == 1u128 << EVALUATION_TYPE_BITS,
        CURVE_TYPE_LIMIT == 1u128 << CURVE_TYPE_BITS,
        ASSET_TYPE_LIMIT == 1u128 << ASSET_TYPE_BITS,
        EVALUATION_TYPE_MASK == ((EVALUATION_TYPE_LIMIT - 1) as u128) << EVALUATION_TYPE_OFFSET,
        CURVE_TYPE_MASK == ((CURVE_TYPE_LIMIT - 1) as u128) << CURVE_TYPE_OFFSET,
        ASSET_TYPE_MASK == ((ASSET_TYPE_LIMIT - 1) as u128) << ASSET_TYPE_OFFSET,
        EVALUATION_TYPE_OFFSET + EVALUATION_TYPE_BITS == CURVE_TYPE_OFFSET,
        CURVE_TYPE_OFFSET + CURVE_TYPE_BITS == ASSET_TYPE_OFFSET,
        EVALUATION_TYPE_MASK & CURVE_TYPE_MASK == 0,
        EVALUATION_TYPE_MASK & ASSET_TYPE_MASK == 0,
        CURVE_TYPE_MASK & ASSET_TYPE_MASK == 0,
        EVALUATION_TYPE_MASK | CURVE_TYPE_MASK | ASSET_TYPE_MASK == 0xffff,
{
    assert(4u128 == 1u128 << 2u32) by (bit_vector);
    assert(64u128 == 1u128 << 6u32) by (bit_vector);
    assert(256u128 == 1u128 << 8u32) by (bit_vector);
    assert(0x0003u128 == 3u128 << 0u32) by (bit_vector);
    assert(0x00fcu128 == 63u128 << 2u32) by (bit_vector);
    assert(0xff00u128 == 255u128 << 8u32) by (bit_vector);
    assert(0x0003u128 & 0x00fcu128 == 0) by (bit_vector);
    assert(0x0003u128 & 0xff00u128 == 0) by (bit_vector);
    assert(0x00fcu128 & 0xff00u128 == 0) by (bit_vector);
    assert(0x0003u128 | 0x00fcu128 | 0xff00u128 == 0xffff) by (bit_vector);
}

} // verus!
