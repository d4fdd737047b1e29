//! The kinds of asset that a curve can govern.

use vstd::prelude::*;

verus! {

/// The category of value that a curve governs. It only ever goes into the
/// flag word.
#[allow(non_camel_case_types)]
#[derive(Clone, Copy, Debug, PartialEq, Eq, Hash, Structural)]
pub enum AssetType {
    /// The chain's native value.
    ETH,
    /// A fungible token.
    ERC20,
    /// Any one token of a non-fungible collection.
    ERC721,
    /// One given token of a non-fungible collection.
    ERC721_ID,
    /// A token of a multi-token contract.
    ERC1155,
}

impl AssetType {
    /// The number that stands for the asset type in a flag word.
    pub open spec fn spec_discriminant(self) -> u128 {
        match self {
            AssetType::ETH => 0,
            AssetType::ERC20 => 1,
            AssetType::ERC721 => 2,
            AssetType::ERC721_ID => 3,
            AssetType::ERC1155 => 4,
        }
    }

    /// The number that stands for the asset type in a flag word.
    #[verifier::when_used_as_spec(spec_discriminant)]
    pub fn discriminant(self) -> (number: u128)
        ensures
            number == self.spec_discriminant(),
    {
        match self {
            AssetType::ETH => 0,
            AssetType::ERC20 => 1,
            AssetType::ERC721 => 2,
            AssetType::ERC721_ID => 3,
            AssetType::ERC1155 => 4,
        }
    }
}

} // verus!
