use vstd::prelude::*;

use vstd::utf8::encode_utf8;

use crate::address::{base58_decoded, base58_encoded, is_address_text, Address};
use crate::error::BubblegumError;
use crate::instruction::{
    build_create_tree, build_mint, build_transfer, create_tree_accounts, create_tree_data,
    metadata_fits, mint_accounts, mint_data, transfer_accounts, transfer_data, ProgramConfig,
};
use crate::keys::{keypair_ok, KeyMaterial};
use crate::request::{
    MetadataFields, MintArgs, MintRequest, TransferArgs, TransferRequest, TreeConfigArgs, TreeConfigRequest,
};
use crate::submit::{Phase, Submission};

verus! {

/// A tree creation ready to run, with the address of the tree it creates.
pub struct CreateTreeSubmission {
    pub submission: Submission,
    pub tree_address: Address,
}

/// A submission that has not started and carries `program`, `accounts` and `data`.
pub open spec fn fresh_submission(
    s: Submission,
    program: Address,
    accounts: Seq<crate::instruction::AccountEntry>,
    data: Seq<u8>,
) -> bool {
    &&& s.wf()
    &&& s.phase_of() == Phase::AwaitingToken
    &&& s.signature_text() is None
    &&& s.program_of() == program
    &&& s.accounts_of() == accounts
    &&& s.data_of() == data
}

/// `q` is what validating `a` gives.
pub open spec fn tree_request_of(a: TreeConfigArgs, q: TreeConfigRequest) -> bool {
    &&& q.authority@ == base58_decoded(a.authority@)
    &&& base58_encoded(q.authority@) == a.authority@
    &&& q.max_depth == a.max_depth
    &&& q.max_buffer_size == a.max_buffer_size
    &&& q.canopy_depth == a.canopy_depth
}

/// Tree creation from a validated request, a payer and the new tree's keys:
/// both sign, the payer pays. A tree identity equal to the payer's is
/// refused with `TreeKeyCollision`.
pub fn prepare_create_tree(
    config: &ProgramConfig,
    req: &TreeConfigRequest,
    payer: KeyMaterial,
    tree: KeyMaterial,
) -> (r: Result<CreateTreeSubmission, BubblegumError>)
    ensures
        r is Ok <==> tree.addr()@ != payer.addr()@,
        r is Err ==> r->Err_0 == BubblegumError::TreeKeyCollision,
        r is Ok ==> ({
            let c = r->Ok_0;
            &&& c.tree_address == tree.addr()
            &&& c.submission.payer_addr() == payer.addr()
            &&& c.submission.other_addr() == Some(tree.addr())
            &&& fresh_submission(
                c.submission,
                config.bubblegum_program,
                create_tree_accounts(*config, *req, payer.addr(), tree.addr()),
                create_tree_data(*req),
            )
        }),
{
    let payer_address = payer.address();
    let tree_address = tree.address();
    if tree_address.same_as(&payer_address) {
        return Err(BubblegumError::TreeKeyCollision);
    }
    let ix = build_create_tree(config, req, payer_address, tree_address);
    let submission = Submission::new(ix, payer, Some(tree));
    Ok(CreateTreeSubmission { submission, tree_address })
}

/// Creates a tree: checks the authority address, then the payer's key
/// bytes, draws a fresh tree identity distinct from the payer and prepares
/// the signed submission. Nothing reaches the network before every check has
/// passed. Well-formed inputs succeed unless the random draw hits the
/// payer's own address.
pub fn create_tree_config(
    config: &ProgramConfig,
    args: &TreeConfigArgs,
    payer_keypair: &[u8],
) -> (r: Result<CreateTreeSubmission, BubblegumError>)
    ensures
        !is_address_text(args.authority@) ==> r == Err::<CreateTreeSubmission, BubblegumError>(
            BubblegumError::InvalidAddress,
        ),
        is_address_text(args.authority@) && !keypair_ok(payer_keypair@) ==> r == Err::<
            CreateTreeSubmission,
            BubblegumError,
        >(BubblegumError::InvalidKeyMaterial),
        is_address_text(args.authority@) && keypair_ok(payer_keypair@) ==> r is Ok || r
            == Err::<CreateTreeSubmission, BubblegumError>(BubblegumError::TreeKeyCollision),
        r is Ok ==> ({
            let c = r->Ok_0;
            &&& c.submission.payer_addr()@ == payer_keypair@.subrange(32, 64)
            &&& c.tree_address@ != c.submission.payer_addr()@
            &&& c.submission.other_addr() == Some(c.tree_address)
            &&& exists|q: TreeConfigRequest|
                tree_request_of(*args, q) && fresh_submission(
                    c.submission,
                    config.bubblegum_program,
                    create_tree_accounts(*config, q, c.submission.payer_addr(), c.tree_address),
                    create_tree_data(q),
                )
        }),
{
    let req = args.validate()?;
    let payer = KeyMaterial::from_bytes(payer_keypair)?;
    let tree = KeyMaterial::generate();
    let r = prepare_create_tree(config, &req, payer, tree);
    assert(tree_request_of(*args, req));
    r
}

/// Whether the metadata texts can be framed.
pub fn metadata_fits_in_memory(m: &MetadataFields) -> (r: bool)
    ensures
        r == metadata_fits(*m),
{
    let a = m.name.len();
    let b = m.symbol.len();
    let c = m.uri.len();
    a <= usize::MAX - 64 && b <= usize::MAX - 64 - a && c <= usize::MAX - 64 - a - b
}

/// A mint from a validated request and the payer, who alone signs.
pub fn prepare_mint(config: &ProgramConfig, req: &MintRequest, payer: KeyMaterial) -> (r:
    Submission)
    requires
        metadata_fits(req.metadata),
    ensures
        r.payer_addr() == payer.addr(),
        r.other_addr() is None,
        fresh_submission(
            r,
            config.bubblegum_program,
            mint_accounts(*config, *req, payer.addr()),
            mint_data(*req),
        ),
{
    let payer_address = payer.address();
    let ix = build_mint(config, req, payer_address);
    Submission::new(ix, payer, None)
}

/// The three addresses of a mint are address text.
pub open spec fn mint_addresses_ok(a: MintArgs) -> bool {
    is_address_text(a.tree_authority@) && is_address_text(a.leaf_owner@) && is_address_text(
        a.merkle_tree@,
    )
}

/// The metadata texts of a mint, as UTF-8, are short enough to frame.
pub open spec fn mint_texts_fit(a: MintArgs) -> bool {
    encode_utf8(a.name@).len() + encode_utf8(a.symbol@).len() + encode_utf8(a.metadata_uri@).len()
        + 64 <= usize::MAX
}

/// Mints a leaf: checks the addresses, the metadata size, then the payer's
/// key bytes, and prepares the signed submission. Each failure comes exactly
/// when its check fails and the earlier ones pass; otherwise it succeeds.
pub fn mint_v1(config: &ProgramConfig, args: &MintArgs, payer_keypair: &[u8]) -> (r: Result<
    Submission,
    BubblegumError,
>)
    ensures
        !mint_addresses_ok(*args) ==> r == Err::<Submission, BubblegumError>(
            BubblegumError::InvalidAddress,
        ),
        mint_addresses_ok(*args) && !mint_texts_fit(*args) ==> r == Err::<
            Submission,
            BubblegumError,
        >(BubblegumError::MetadataTooLarge),
        mint_addresses_ok(*args) && mint_texts_fit(*args) && !keypair_ok(payer_keypair@) ==> r
            == Err::<Submission, BubblegumError>(BubblegumError::InvalidKeyMaterial),
        mint_addresses_ok(*args) && mint_texts_fit(*args) && keypair_ok(payer_keypair@) ==> r is Ok,
        r is Ok ==> ({
            let s = r->Ok_0;
            &&& s.payer_addr()@ == payer_keypair@.subrange(32, 64)
            &&& s.other_addr() is None
            &&& exists|q: MintRequest|
                mint_request_of(*args, q) && fresh_submission(
                    s,
                    config.bubblegum_program,
                    mint_accounts(*config, q, s.payer_addr()),
                    mint_data(q),
                )
        }),
{
    let req = args.validate()?;
    if !metadata_fits_in_memory(&req.metadata) {
        return Err(BubblegumError::MetadataTooLarge);
    }
    let payer = KeyMaterial::from_bytes(payer_keypair)?;
    let r = prepare_mint(config, &req, payer);
    assert(mint_request_of(*args, req));
    Ok(r)
}

/// `q` is what validating `a` gives.
pub open spec fn mint_request_of(a: MintArgs, q: MintRequest) -> bool {
    &&& q.tree_authority@ == base58_decoded(a.tree_authority@)
    &&& base58_encoded(q.tree_authority@) == a.tree_authority@
    &&& q.leaf_owner@ == base58_decoded(a.leaf_owner@)
    &&& base58_encoded(q.leaf_owner@) == a.leaf_owner@
    &&& q.merkle_tree@ == base58_decoded(a.merkle_tree@)
    &&& base58_encoded(q.merkle_tree@) == a.merkle_tree@
    &&& q.metadata.name@ == encode_utf8(a.name@)
    &&& q.metadata.symbol@ == encode_utf8(a.symbol@)
    &&& q.metadata.uri@ == encode_utf8(a.metadata_uri@)
    &&& q.metadata.seller_fee_basis_points == crate::request::DEFAULT_SELLER_FEE_BASIS_POINTS
    &&& !q.metadata.primary_sale_happened
    &&& q.metadata.is_mutable
}

/// `q` is what validating `a` gives.
pub open spec fn transfer_request_of(a: TransferArgs, q: TransferRequest) -> bool {
    &&& q.tree_authority@ == base58_decoded(a.tree_authority@)
    &&& base58_encoded(q.tree_authority@) == a.tree_authority@
    &&& q.leaf_owner@ == base58_decoded(a.leaf_owner@)
    &&& base58_encoded(q.leaf_owner@) == a.leaf_owner@
    &&& q.new_leaf_owner@ == base58_decoded(a.new_leaf_owner@)
    &&& base58_encoded(q.new_leaf_owner@) == a.new_leaf_owner@
    &&& q.merkle_tree@ == base58_decoded(a.merkle_tree@)
    &&& base58_encoded(q.merkle_tree@) == a.merkle_tree@
    &&& q.root == a.root
    &&& q.data_hash == a.data_hash
    &&& q.creator_hash == a.creator_hash
    &&& q.nonce == a.nonce
    &&& q.index == a.index
}

/// A transfer from a validated request and the payer, who alone signs.
pub fn prepare_transfer(config: &ProgramConfig, req: &TransferRequest, payer: KeyMaterial) -> (r:
    Submission)
    ensures
        r.payer_addr() == payer.addr(),
        r.other_addr() is None,
        fresh_submission(
            r,
            config.bubblegum_program,
            transfer_accounts(*config, *req),
            transfer_data(*req),
        ),
{
    let payer_address = payer.address();
    let ix = build_transfer(config, req, payer_address);
    Submission::new(ix, payer, None)
}

/// The four addresses of a transfer are address text.
pub open spec fn transfer_addresses_ok(a: TransferArgs) -> bool {
    is_address_text(a.tree_authority@) && is_address_text(a.leaf_owner@) && is_address_text(
        a.new_leaf_owner@,
    ) && is_address_text(a.merkle_tree@)
}

/// Transfers a leaf: checks the addresses, then the payer's key bytes, and
/// prepares the signed submission with the witness unchanged. Any witness
/// is accepted here; only the network judges it.
pub fn transfer_v1(config: &ProgramConfig, args: &TransferArgs, payer_keypair: &[u8]) -> (r:
    Result<Submission, BubblegumError>)
    ensures
        !transfer_addresses_ok(*args) ==> r == Err::<Submission, BubblegumError>(
            BubblegumError::InvalidAddress,
        ),
        transfer_addresses_ok(*args) && !keypair_ok(payer_keypair@) ==> r == Err::<
            Submission,
            BubblegumError,
        >(BubblegumError::InvalidKeyMaterial),
        transfer_addresses_ok(*args) && keypair_ok(payer_keypair@) ==> r is Ok,
        r is Ok ==> ({
            let s = r->Ok_0;
            &&& s.payer_addr()@ == payer_keypair@.subrange(32, 64)
            &&& s.other_addr() is None
            &&& exists|q: TransferRequest|
                transfer_request_of(*args, q) && fresh_submission(
                    s,
                    config.bubblegum_program,
                    transfer_accounts(*config, q),
                    transfer_data(q),
                )
        }),
{
    let req = args.validate()?;
    let payer = KeyMaterial::from_bytes(payer_keypair)?;
    let r = prepare_transfer(config, &req, payer);
    assert(transfer_request_of(*args, req));
    Ok(r)
}

} // verus!
