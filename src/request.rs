use vstd::prelude::*;
use vstd::utf8::encode_utf8;

use crate::address::{base58_decoded, base58_encoded, is_address_text, parse_address, Address};
use crate::encoding::push_bytes;
use crate::error::BubblegumError;

verus! {

/// Tree-creation input as the host hands it over.
pub struct TreeConfigArgs {
    pub max_depth: u32,
    pub max_buffer_size: u32,
    pub authority: String,
    pub canopy_depth: u32,
}

/// Mint input as the host hands it over. `merkle_tree` is the address that
/// tree creation produced.
pub struct MintArgs {
    pub tree_authority: String,
    pub leaf_owner: String,
    pub merkle_tree: String,
    pub metadata_uri: String,
    pub name: String,
    pub symbol: String,
}

/// Transfer input as the host hands it over. `merkle_tree` is the address
/// that tree creation produced; the hashes, nonce and index are the leaf's
/// witness.
pub struct TransferArgs {
    pub tree_authority: String,
    pub leaf_owner: String,
    pub new_leaf_owner: String,
    pub merkle_tree: String,
    pub root: [u8; 32],
    pub data_hash: [u8; 32],
    pub creator_hash: [u8; 32],
    pub nonce: u64,
    pub index: u32,
}

/// A validated tree-creation request.
pub struct TreeConfigRequest {
    pub max_depth: u32,
    pub max_buffer_size: u32,
    pub authority: Address,
    pub canopy_depth: u32,
}

/// The metadata of a minted leaf: texts as UTF-8 bytes, and the sale policy.
pub struct MetadataFields {
    pub name: Vec<u8>,
    pub symbol: Vec<u8>,
    pub uri: Vec<u8>,
    pub seller_fee_basis_points: u16,
    pub primary_sale_happened: bool,
    pub is_mutable: bool,
}

/// A validated mint request.
pub struct MintRequest {
    pub tree_authority: Address,
    pub leaf_owner: Address,
    pub merkle_tree: Address,
    pub metadata: MetadataFields,
}

/// A validated transfer request.
pub struct TransferRequest {
    pub tree_authority: Address,
    pub leaf_owner: Address,
    pub new_leaf_owner: Address,
    pub merkle_tree: Address,
    pub root: [u8; 32],
    pub data_hash: [u8; 32],
    pub creator_hash: [u8; 32],
    pub nonce: u64,
    pub index: u32,
}

/// The royalty a validated mint gets: none. It is also not yet sold and
/// mutable; a caller that wants another policy sets the fields of the
/// validated request.
pub const DEFAULT_SELLER_FEE_BASIS_POINTS: u16 = 0;

fn utf8_bytes(s: &String) -> (r: Vec<u8>)
    ensures
        r@ == encode_utf8(s@),
{
    let b = s.as_str().as_bytes();
    let mut out: Vec<u8> = Vec::with_capacity(b.len());
    push_bytes(&mut out, b);
    out
}

impl TreeConfigArgs {
    /// Checks the authority address; the sizes are passed on unchanged.
    pub fn validate(&self) -> (r: Result<TreeConfigRequest, BubblegumError>)
        ensures
            r is Ok <==> is_address_text(self.authority@),
            r is Err ==> r->Err_0 == BubblegumError::InvalidAddress,
            r is Ok ==> ({
                let q = r->Ok_0;
                &&& q.authority@ == base58_decoded(self.authority@)
                &&& base58_encoded(q.authority@) == self.authority@
                &&& q.max_depth == self.max_depth
                &&& q.max_buffer_size == self.max_buffer_size
                &&& q.canopy_depth == self.canopy_depth
            }),
    {
        let authority = parse_address(self.authority.as_str())?;
        Ok(
            TreeConfigRequest {
                max_depth: self.max_depth,
                max_buffer_size: self.max_buffer_size,
                authority,
                canopy_depth: self.canopy_depth,
            },
        )
    }
}

impl MintArgs {
    /// Checks the three addresses and takes the metadata texts as bytes, with
    /// the default sale policy.
    pub fn validate(&self) -> (r: Result<MintRequest, BubblegumError>)
        ensures
            r is Ok <==> (is_address_text(self.tree_authority@) && is_address_text(
                self.leaf_owner@,
            ) && is_address_text(self.merkle_tree@)),
            r is Err ==> r->Err_0 == BubblegumError::InvalidAddress,
            r is Ok ==> ({
                let q = r->Ok_0;
                &&& q.tree_authority@ == base58_decoded(self.tree_authority@)
                &&& base58_encoded(q.tree_authority@) == self.tree_authority@
                &&& q.leaf_owner@ == base58_decoded(self.leaf_owner@)
                &&& base58_encoded(q.leaf_owner@) == self.leaf_owner@
                &&& q.merkle_tree@ == base58_decoded(self.merkle_tree@)
                &&& base58_encoded(q.merkle_tree@) == self.merkle_tree@
                &&& q.metadata.name@ == encode_utf8(self.name@)
                &&& q.metadata.symbol@ == encode_utf8(self.symbol@)
                &&& q.metadata.uri@ == encode_utf8(self.metadata_uri@)
                &&& q.metadata.seller_fee_basis_points == DEFAULT_SELLER_FEE_BASIS_POINTS
                &&& !q.metadata.primary_sale_happened
                &&& q.metadata.is_mutable
            }),
    {
        let tree_authority = parse_address(self.tree_authority.as_str())?;
        let leaf_owner = parse_address(self.leaf_owner.as_str())?;
        let merkle_tree = parse_address(self.merkle_tree.as_str())?;
        let metadata = MetadataFields {
            name: utf8_bytes(&self.name),
            symbol: utf8_bytes(&self.symbol),
            uri: utf8_bytes(&self.metadata_uri),
            seller_fee_basis_points: DEFAULT_SELLER_FEE_BASIS_POINTS,
            primary_sale_happened: false,
            is_mutable: true,
        };
        Ok(MintRequest { tree_authority, leaf_owner, merkle_tree, metadata })
    }
}

impl TransferArgs {
    /// Checks the four addresses; the witness is passed on unchanged.
    pub fn validate(&self) -> (r: Result<TransferRequest, BubblegumError>)
        ensures
            r is Ok <==> (is_address_text(self.tree_authority@) && is_address_text(
                self.leaf_owner@,
            ) && is_address_text(self.new_leaf_owner@) && is_address_text(self.merkle_tree@)),
            r is Err ==> r->Err_0 == BubblegumError::InvalidAddress,
            r is Ok ==> ({
                let q = r->Ok_0;
                &&& q.tree_authority@ == base58_decoded(self.tree_authority@)
                &&& base58_encoded(q.tree_authority@) == self.tree_authority@
                &&& q.leaf_owner@ == base58_decoded(self.leaf_owner@)
                &&& base58_encoded(q.leaf_owner@) == self.leaf_owner@
                &&& q.new_leaf_owner@ == base58_decoded(self.new_leaf_owner@)
                &&& base58_encoded(q.new_leaf_owner@) == self.new_leaf_owner@
                &&& q.merkle_tree@ == base58_decoded(self.merkle_tree@)
                &&& base58_encoded(q.merkle_tree@) == self.merkle_tree@
                &&& q.root == self.root
                &&& q.data_hash == self.data_hash
                &&& q.creator_hash == self.creator_hash
                &&& q.nonce == self.nonce
                &&& q.index == self.index
            }),
    {
        let tree_authority = parse_address(self.tree_authority.as_str())?;
        let leaf_owner = parse_address(self.leaf_owner.as_str())?;
        let new_leaf_owner = parse_address(self.new_leaf_owner.as_str())?;
        let merkle_tree = parse_address(self.merkle_tree.as_str())?;
        Ok(
            TransferRequest {
                tree_authority,
                leaf_owner,
                new_leaf_owner,
                merkle_tree,
                root: self.root,
                data_hash: self.data_hash,
                creator_hash: self.creator_hash,
                nonce: self.nonce,
                index: self.index,
            },
        )
    }
}

} // verus!
