//! Building, signing and submitting compressed-NFT transactions (tree
//! creation, mint, transfer) with every decision proved.
pub mod address;
pub mod encoding;
pub mod error;
pub mod instruction;
pub mod keys;
pub mod operations;
pub mod request;
pub mod submit;
