use vstd::prelude::*;

use crate::address::Address;
use crate::encoding::{flag_byte, framed, le_bytes, push_bytes, push_framed, push_le};
use crate::request::{MetadataFields, MintRequest, TransferRequest, TreeConfigRequest};

verus! {

/// One account that an instruction names, with its role.
#[derive(Debug, Clone, Copy)]
pub struct AccountEntry {
    pub address: Address,
    pub is_signer: bool,
    pub is_writable: bool,
}

/// The unit of work handed to the network: a program, its accounts, and the
/// serialized arguments.
pub struct InstructionDescriptor {
    pub program: Address,
    pub accounts: Vec<AccountEntry>,
    pub data: Vec<u8>,
}

/// The program addresses that every instruction refers to.
#[derive(Debug, Clone, Copy)]
pub struct ProgramConfig {
    pub bubblegum_program: Address,
    pub log_wrapper_program: Address,
    pub compression_program: Address,
    pub system_program: Address,
}

/// First byte of the arguments of a tree creation.
pub const CREATE_TREE_TAG: u8 = 0;

/// First byte of the arguments of a mint.
pub const MINT_TAG: u8 = 1;

/// First byte of the arguments of a transfer.
pub const TRANSFER_TAG: u8 = 2;

/// An account entry in contracts.
pub open spec fn acct(a: Address, signer: bool, writable: bool) -> AccountEntry {
    AccountEntry { address: a, is_signer: signer, is_writable: writable }
}

/// The addresses whose signatures the accounts ask for.
pub open spec fn signer_set(accounts: Seq<AccountEntry>) -> Set<Address> {
    Set::new(
        |a: Address|
            exists|i: int| 0 <= i < accounts.len() && #[trigger] accounts[i].is_signer && accounts[i].address == a,
    )
}

/// Who must sign a transaction that carries the instruction and is paid by
/// `payer`: the fee payer, and every signer account.
pub open spec fn required_signers(ix: &InstructionDescriptor, payer: Address) -> Set<Address> {
    signer_set(ix.accounts@).insert(payer)
}

/// Accounts of a tree creation: the authority, the new tree (signing), the
/// payer (signing, also as tree creator) and the helper programs.
pub open spec fn create_tree_accounts(
    c: ProgramConfig,
    q: TreeConfigRequest,
    payer: Address,
    tree: Address,
) -> Seq<AccountEntry> {
    seq![
        acct(q.authority, false, true),
        acct(tree, true, true),
        acct(payer, true, true),
        acct(payer, true, false),
        acct(c.log_wrapper_program, false, false),
        acct(c.compression_program, false, false),
        acct(c.system_program, false, false),
    ]
}

/// Arguments of a tree creation: the tag, then depth, buffer size and canopy
/// depth as four little-endian bytes each.
pub open spec fn create_tree_data(q: TreeConfigRequest) -> Seq<u8> {
    seq![CREATE_TREE_TAG] + le_bytes(q.max_depth as nat, 4) + le_bytes(q.max_buffer_size as nat, 4)
        + le_bytes(q.canopy_depth as nat, 4)
}

/// Accounts of a mint: the tree authority, the owner (also as delegate), the
/// tree, the payer (signing, also as tree delegate) and the helper programs.
pub open spec fn mint_accounts(c: ProgramConfig, q: MintRequest, payer: Address) -> Seq<
    AccountEntry,
> {
    seq![
        acct(q.tree_authority, false, true),
        acct(q.leaf_owner, false, false),
        acct(q.leaf_owner, false, false),
        acct(q.merkle_tree, false, true),
        acct(payer, true, true),
        acct(payer, true, false),
        acct(c.log_wrapper_program, false, false),
        acct(c.compression_program, false, false),
        acct(c.system_program, false, false),
    ]
}

/// Metadata as arguments: name, symbol and URI framed by their lengths, the
/// royalty as two little-endian bytes, then the two flags.
pub open spec fn metadata_data(m: MetadataFields) -> Seq<u8> {
    framed(m.name@) + framed(m.symbol@) + framed(m.uri@) + le_bytes(
        m.seller_fee_basis_points as nat,
        2,
    ) + seq![flag_byte(m.primary_sale_happened), flag_byte(m.is_mutable)]
}

/// Arguments of a mint: the tag, then the metadata.
pub open spec fn mint_data(q: MintRequest) -> Seq<u8> {
    seq![MINT_TAG] + metadata_data(q.metadata)
}

/// The metadata texts are short enough that their framing fits in memory.
pub open spec fn metadata_fits(m: MetadataFields) -> bool {
    m.name@.len() + m.symbol@.len() + m.uri@.len() + 64 <= usize::MAX
}

/// Accounts of a transfer: the tree authority, the owner (also as delegate),
/// the new owner, the tree and the helper programs. None signs: the payer
/// signs as fee payer.
pub open spec fn transfer_accounts(c: ProgramConfig, q: TransferRequest) -> Seq<AccountEntry> {
    seq![
        acct(q.tree_authority, false, false),
        acct(q.leaf_owner, false, false),
        acct(q.leaf_owner, false, false),
        acct(q.new_leaf_owner, false, false),
        acct(q.merkle_tree, false, true),
        acct(c.log_wrapper_program, false, false),
        acct(c.compression_program, false, false),
        acct(c.system_program, false, false),
    ]
}

/// Arguments of a transfer: the tag, the three hashes, then nonce and index
/// as eight and four little-endian bytes.
pub open spec fn transfer_data(q: TransferRequest) -> Seq<u8> {
    seq![TRANSFER_TAG] + q.root@ + q.data_hash@ + q.creator_hash@ + le_bytes(q.nonce as nat, 8)
        + le_bytes(q.index as nat, 4)
}

/// A tree creation asks for two signatures, the payer's and the new tree's;
/// a mint or a transfer asks for the payer's alone.
pub proof fn lemma_signer_counts(
    c: ProgramConfig,
    create: TreeConfigRequest,
    mint: MintRequest,
    transfer: TransferRequest,
    payer: Address,
    tree: Address,
)
    requires
        payer != tree,
    ensures
        signer_set(create_tree_accounts(c, create, payer, tree)).insert(payer).len() == 2,
        signer_set(mint_accounts(c, mint, payer)).insert(payer).len() == 1,
        signer_set(transfer_accounts(c, transfer)).insert(payer).len() == 1,
{
    let s = create_tree_accounts(c, create, payer, tree);
    assert(s[1].is_signer && s[1].address == tree);
    assert(signer_set(s).insert(payer) =~= set![payer, tree]);
    assert(set![payer, tree].len() == 2) by {
        assert(set![payer].len() == 1);
        assert(!set![payer].contains(tree));
    }
    assert(signer_set(mint_accounts(c, mint, payer)).insert(payer) =~= set![payer]);
    assert(signer_set(transfer_accounts(c, transfer)).insert(payer) =~= set![payer]);
}

fn entry(address: Address, is_signer: bool, is_writable: bool) -> (r: AccountEntry)
    ensures
        r == acct(address, is_signer, is_writable),
{
    AccountEntry { address, is_signer, is_writable }
}

/// Builds the tree-creation instruction for a payer and a new tree identity.
/// It asks for the signatures of those two and no one else.
pub fn build_create_tree(
    config: &ProgramConfig,
    req: &TreeConfigRequest,
    payer: Address,
    tree: Address,
) -> (r: InstructionDescriptor)
    ensures
        r.program == config.bubblegum_program,
        r.accounts@ == create_tree_accounts(*config, *req, payer, tree),
        r.data@ == create_tree_data(*req),
        required_signers(&r, payer) == set![payer, tree],
{
    let mut accounts: Vec<AccountEntry> = Vec::new();
    accounts.push(entry(req.authority, false, true));
    accounts.push(entry(tree, true, true));
    accounts.push(entry(payer, true, true));
    accounts.push(entry(payer, true, false));
    accounts.push(entry(config.log_wrapper_program, false, false));
    accounts.push(entry(config.compression_program, false, false));
    accounts.push(entry(config.system_program, false, false));
    let mut data: Vec<u8> = Vec::new();
    data.push(CREATE_TREE_TAG);
    push_le(&mut data, req.max_depth as u64, 4);
    push_le(&mut data, req.max_buffer_size as u64, 4);
    push_le(&mut data, req.canopy_depth as u64, 4);
    let r = InstructionDescriptor { program: config.bubblegum_program, accounts, data };
    proof {
        let s = r.accounts@;
        assert(s =~= create_tree_accounts(*config, *req, payer, tree));
        assert(r.data@ =~= create_tree_data(*req));
        assert(s[1].is_signer && s[1].address == tree);
        assert(required_signers(&r, payer) =~= set![payer, tree]);
    }
    r
}

/// Builds the mint instruction. Only the payer's signature is asked for.
pub fn build_mint(config: &ProgramConfig, req: &MintRequest, payer: Address) -> (r:
    InstructionDescriptor)
    requires
        metadata_fits(req.metadata),
    ensures
        r.program == config.bubblegum_program,
        r.accounts@ == mint_accounts(*config, *req, payer),
        r.data@ == mint_data(*req),
        required_signers(&r, payer) == set![payer],
{
    let mut accounts: Vec<AccountEntry> = Vec::new();
    accounts.push(entry(req.tree_authority, false, true));
    accounts.push(entry(req.leaf_owner, false, false));
    accounts.push(entry(req.leaf_owner, false, false));
    accounts.push(entry(req.merkle_tree, false, true));
    accounts.push(entry(payer, true, true));
    accounts.push(entry(payer, true, false));
    accounts.push(entry(config.log_wrapper_program, false, false));
    accounts.push(entry(config.compression_program, false, false));
    accounts.push(entry(config.system_program, false, false));
    let m = &req.metadata;
    let mut data: Vec<u8> = Vec::new();
    data.push(MINT_TAG);
    push_framed(&mut data, m.name.as_slice());
    push_framed(&mut data, m.symbol.as_slice());
    push_framed(&mut data, m.uri.as_slice());
    push_le(&mut data, m.seller_fee_basis_points as u64, 2);
    data.push(if m.primary_sale_happened { 1u8 } else { 0u8 });
    data.push(if m.is_mutable { 1u8 } else { 0u8 });
    let r = InstructionDescriptor { program: config.bubblegum_program, accounts, data };
    proof {
        let s = r.accounts@;
        assert(s =~= mint_accounts(*config, *req, payer));
        assert(r.data@ =~= mint_data(*req));
        assert(required_signers(&r, payer) =~= set![payer]);
    }
    r
}

/// Builds the transfer instruction. The witness goes into the arguments
/// unchanged; only the payer's signature is asked for.
pub fn build_transfer(config: &ProgramConfig, req: &TransferRequest, payer: Address) -> (r:
    InstructionDescriptor)
    ensures
        r.program == config.bubblegum_program,
        r.accounts@ == transfer_accounts(*config, *req),
        r.data@ == transfer_data(*req),
        required_signers(&r, payer) == set![payer],
{
    let mut accounts: Vec<AccountEntry> = Vec::new();
    accounts.push(entry(req.tree_authority, false, false));
    accounts.push(entry(req.leaf_owner, false, false));
    accounts.push(entry(req.leaf_owner, false, false));
    accounts.push(entry(req.new_leaf_owner, false, false));
    accounts.push(entry(req.merkle_tree, false, true));
    accounts.push(entry(config.log_wrapper_program, false, false));
    accounts.push(entry(config.compression_program, false, false));
    accounts.push(entry(config.system_program, false, false));
    let mut data: Vec<u8> = Vec::new();
    data.push(TRANSFER_TAG);
    push_bytes(&mut data, req.root.as_slice());
    push_bytes(&mut data, req.data_hash.as_slice());
    push_bytes(&mut data, req.creator_hash.as_slice());
    push_le(&mut data, req.nonce, 8);
    push_le(&mut data, req.index as u64, 4);
    let r = InstructionDescriptor { program: config.bubblegum_program, accounts, data };
    proof {
        let s = r.accounts@;
        assert(s =~= transfer_accounts(*config, *req));
        assert(r.data@ =~= transfer_data(*req));
        assert(signer_set(s) =~= Set::<Address>::empty());
        assert(required_signers(&r, payer) =~= set![payer]);
    }
    r
}

} // verus!
