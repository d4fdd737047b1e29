//! Builders for curve-based intent segments, user intents and intent
//! solutions that are handed to an on-chain settlement protocol.
//!
//! Every value built here is plain data: the crate packs and orders, it never
//! evaluates a curve, checks a signature or talks to a node. What it builds
//! has to agree with the chain bit for bit, so every builder states exactly
//! what it returns, and the statements are proved.
//!
//! From the leaves up:
//!
//! - [`primitives`]: addresses and 256-bit words;
//! - [`curve_type`], [`asset_type`], [`evaluation_type`]: what a curve is,
//!   what it governs and how its value is read;
//! - [`flag_layout`] and [`curve_flags`]: the flag word of a curve;
//! - [`curve_builder`]: a curve bound to its asset;
//! - [`segment_builder`] and [`intent_segment`]: the kinds of segment;
//! - [`user_intent`]: segments in order, up to the signature;
//! - [`intent_solution`]: intents in order, ready to submit;
//! - [`transfer_eth`]: the intents of a solver-paid ETH transfer;
//! - [`abi`]: the bytes of the contract ABI, which `ethers` makes;
//! - [`error`]: what a builder can refuse.

pub mod abi;
pub mod asset_type;
pub mod curve_builder;
pub mod curve_flags;
pub mod curve_type;
pub mod error;
pub mod evaluation_type;
pub mod flag_layout;
pub mod intent_segment;
pub mod intent_solution;
pub mod primitives;
pub mod segment_builder;
pub mod transfer_eth;
pub mod user_intent;
