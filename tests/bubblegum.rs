use bubblegum_bridge::address::{parse_address, Address};
use bubblegum_bridge::error::BubblegumError;
use bubblegum_bridge::instruction::{
    build_create_tree, build_mint, build_transfer, AccountEntry, ProgramConfig,
};
use bubblegum_bridge::keys::KeyMaterial;
use bubblegum_bridge::operations::{create_tree_config, mint_v1, prepare_create_tree, transfer_v1};
use bubblegum_bridge::request::{MintArgs, TransferArgs, TreeConfigArgs};
use bubblegum_bridge::submit::{ChainEvent, Phase, SubmitAction, Submission};
use solana_sdk::signature::Keypair;

const SYSTEM: &str = "11111111111111111111111111111111";
const BUBBLEGUM: &str = "BGUMAp9Gq7iTEuizy4pqaxsTyUCBK68MDfK752saRPUY";
const TOKEN: &str = "TokenkegQfeZyiNwAJbNbGKPFXCWuBvf9Ss623VQ5DA";
const NOOP: &str = "noopb9bkMVfRPU8AsbpTUg8AQkHtKwMYZiFUjNRtMmV";
const COMPRESSION: &str = "cmtDvXumGCrqC1Age74AVPhSRVXJMd8PJS91L8KbNCK";

fn addr(s: &str) -> Address {
    parse_address(s).unwrap()
}

fn config() -> ProgramConfig {
    ProgramConfig {
        bubblegum_program: addr(BUBBLEGUM),
        log_wrapper_program: addr(NOOP),
        compression_program: addr(COMPRESSION),
        system_program: addr(SYSTEM),
    }
}

fn payer_bytes() -> Vec<u8> {
    Keypair::new().to_bytes().to_vec()
}

fn signer_addresses(accounts: &[AccountEntry], payer: Address) -> Vec<Address> {
    let mut out = vec![payer];
    for a in accounts {
        if a.is_signer && !out.contains(&a.address) {
            out.push(a.address);
        }
    }
    out
}

/// A chain client stand-in: what the token fetch and the send report.
struct Stub {
    token: Option<[u8; 32]>,
    verdict: ChainEvent,
}

fn run(sub: &mut Submission, stub: &Stub) -> (Result<String, BubblegumError>, usize) {
    let mut sends = 0;
    let mut action = sub.start();
    loop {
        action = match action {
            SubmitAction::FetchToken => match stub.token {
                Some(t) => sub.step(ChainEvent::TokenReceived(t)),
                None => sub.step(ChainEvent::TokenUnavailable),
            },
            SubmitAction::Send => {
                assert!(sub.transaction().is_some());
                sends += 1;
                sub.step(stub.verdict)
            }
            SubmitAction::Finish(r) => return (r, sends),
        };
    }
}

fn tree_args(authority: &str) -> TreeConfigArgs {
    TreeConfigArgs {
        max_depth: 14,
        max_buffer_size: 64,
        authority: authority.to_string(),
        canopy_depth: 0,
    }
}

fn transfer_args(nonce: u64, index: u32) -> TransferArgs {
    TransferArgs {
        tree_authority: TOKEN.to_string(),
        leaf_owner: NOOP.to_string(),
        new_leaf_owner: COMPRESSION.to_string(),
        merkle_tree: BUBBLEGUM.to_string(),
        root: [1u8; 32],
        data_hash: [2u8; 32],
        creator_hash: [3u8; 32],
        nonce,
        index,
    }
}

#[test]
fn parse_address_rejects_characters_outside_alphabet() {
    for s in ["0OIl", "BGUMAp9Gq7iTEuizy4pqaxsTyUCBK68MDfK752saRPU0", "abc def", "ümlaut"] {
        assert_eq!(parse_address(s), Err(BubblegumError::InvalidAddress));
    }
}

#[test]
fn parse_address_rejects_wrong_decoded_length() {
    for s in ["", "1", "abc", "1111111111111111111111111111111", "111111111111111111111111111111111"] {
        assert_eq!(parse_address(s), Err(BubblegumError::InvalidAddress));
    }
}

#[test]
fn parse_address_decodes_zero_address() {
    assert_eq!(addr(SYSTEM).bytes, [0u8; 32]);
}

#[test]
fn parse_address_decodes_nonzero_address() {
    let a = addr(BUBBLEGUM);
    assert_ne!(a.bytes, [0u8; 32]);
    assert_eq!(a.bytes[0], 0x98);
}

#[test]
fn address_round_trips_through_base58() {
    for s in [SYSTEM, BUBBLEGUM, TOKEN, NOOP, COMPRESSION] {
        assert_eq!(addr(s).to_base58(), s);
    }
}

#[test]
fn key_material_rejects_wrong_length() {
    let good = payer_bytes();
    assert!(matches!(KeyMaterial::from_bytes(&good[..63]), Err(BubblegumError::InvalidKeyMaterial)));
    let mut long = good.clone();
    long.push(0);
    assert!(matches!(KeyMaterial::from_bytes(&long), Err(BubblegumError::InvalidKeyMaterial)));
    assert!(matches!(KeyMaterial::from_bytes(&[]), Err(BubblegumError::InvalidKeyMaterial)));
}

#[test]
fn key_material_rejects_mismatched_public_half() {
    let mut bytes = payer_bytes();
    let other = payer_bytes();
    bytes[32..].copy_from_slice(&other[32..]);
    assert!(matches!(KeyMaterial::from_bytes(&bytes), Err(BubblegumError::InvalidKeyMaterial)));
}

#[test]
fn key_material_address_is_public_half() {
    let bytes = payer_bytes();
    let k = KeyMaterial::from_bytes(&bytes).unwrap();
    assert_eq!(&k.address().bytes[..], &bytes[32..]);
}

#[test]
fn create_tree_asks_for_payer_and_tree_signatures() {
    let payer = KeyMaterial::generate().address();
    let tree = KeyMaterial::generate().address();
    let req = tree_args(TOKEN).validate().unwrap();
    let ix = build_create_tree(&config(), &req, payer, tree);
    assert_eq!(signer_addresses(&ix.accounts, payer), vec![payer, tree]);
    assert_eq!(ix.program, addr(BUBBLEGUM));
    assert_eq!(ix.accounts.len(), 7);
    assert_eq!(ix.accounts[0].address, addr(TOKEN));
    assert_eq!(ix.accounts[1].address, tree);
}

#[test]
fn mint_and_transfer_ask_for_payer_signature_only() {
    let payer = KeyMaterial::generate().address();
    let mint = MintArgs {
        tree_authority: TOKEN.to_string(),
        leaf_owner: NOOP.to_string(),
        merkle_tree: BUBBLEGUM.to_string(),
        metadata_uri: "u".to_string(),
        name: "n".to_string(),
        symbol: "s".to_string(),
    }
    .validate()
    .unwrap();
    let ix = build_mint(&config(), &mint, payer);
    assert_eq!(signer_addresses(&ix.accounts, payer), vec![payer]);
    let transfer = transfer_args(1, 2).validate().unwrap();
    let ix = build_transfer(&config(), &transfer, payer);
    assert_eq!(signer_addresses(&ix.accounts, payer), vec![payer]);
}

#[test]
fn create_tree_arguments_layout() {
    let req = tree_args(TOKEN).validate().unwrap();
    let ix = build_create_tree(&config(), &req, addr(SYSTEM), addr(NOOP));
    assert_eq!(ix.data, vec![0, 14, 0, 0, 0, 64, 0, 0, 0, 0, 0, 0, 0]);
}

#[test]
fn mint_arguments_layout() {
    let req = MintArgs {
        tree_authority: TOKEN.to_string(),
        leaf_owner: NOOP.to_string(),
        merkle_tree: BUBBLEGUM.to_string(),
        metadata_uri: "ab".to_string(),
        name: "é".to_string(),
        symbol: "".to_string(),
    }
    .validate()
    .unwrap();
    let ix = build_mint(&config(), &req, addr(SYSTEM));
    let expected: Vec<u8> = vec![
        1, 2, 0, 0, 0, 0, 0, 0, 0, 0xc3, 0xa9, 0, 0, 0, 0, 0, 0, 0, 0, 2, 0, 0, 0, 0, 0, 0, 0,
        b'a', b'b', 0, 0, 0, 1,
    ];
    assert_eq!(ix.data, expected);
}

#[test]
fn transfer_arguments_carry_witness_unchanged() {
    let req = transfer_args(0x0102030405060708, 0x0a0b0c0d).validate().unwrap();
    let ix = build_transfer(&config(), &req, addr(SYSTEM));
    let mut expected = vec![2u8];
    expected.extend_from_slice(&[1u8; 32]);
    expected.extend_from_slice(&[2u8; 32]);
    expected.extend_from_slice(&[3u8; 32]);
    expected.extend_from_slice(&[8, 7, 6, 5, 4, 3, 2, 1]);
    expected.extend_from_slice(&[0x0d, 0x0c, 0x0b, 0x0a]);
    assert_eq!(ix.data, expected);
    assert_eq!(ix.accounts[4].address, addr(BUBBLEGUM));
    assert!(ix.accounts[4].is_writable);
}

#[test]
fn malformed_address_stops_before_network() {
    let r = create_tree_config(&config(), &tree_args("not-base58!"), &payer_bytes());
    assert!(matches!(r, Err(BubblegumError::InvalidAddress)));
    let r = create_tree_config(&config(), &tree_args("abc"), &[]);
    assert!(matches!(r, Err(BubblegumError::InvalidAddress)));
    let mut args = transfer_args(1, 1);
    args.new_leaf_owner = "0000".to_string();
    assert!(matches!(transfer_v1(&config(), &args, &payer_bytes()), Err(BubblegumError::InvalidAddress)));
}

#[test]
fn bad_key_material_stops_before_network() {
    let r = create_tree_config(&config(), &tree_args(TOKEN), &[1, 2, 3]);
    assert!(matches!(r, Err(BubblegumError::InvalidKeyMaterial)));
}

#[test]
fn token_fetch_failure_gives_network_error_without_sending() {
    let mut sub = transfer_v1(&config(), &transfer_args(1, 1), &payer_bytes()).unwrap();
    let stub = Stub { token: None, verdict: ChainEvent::Confirmed };
    let (r, sends) = run(&mut sub, &stub);
    assert_eq!(r, Err(BubblegumError::NetworkError));
    assert_eq!(sends, 0);
    assert!(sub.signature().is_none());
    assert!(sub.transaction().is_none());
}

#[test]
fn confirmation_transport_failure_gives_network_error() {
    let mut sub = transfer_v1(&config(), &transfer_args(1, 1), &payer_bytes()).unwrap();
    let stub = Stub { token: Some([7u8; 32]), verdict: ChainEvent::TransportFailed };
    let (r, sends) = run(&mut sub, &stub);
    assert_eq!(r, Err(BubblegumError::NetworkError));
    assert_eq!(sends, 1);
}

#[test]
fn confirmation_timeout_gives_timeout() {
    let mut sub = transfer_v1(&config(), &transfer_args(1, 1), &payer_bytes()).unwrap();
    let stub = Stub { token: Some([7u8; 32]), verdict: ChainEvent::TimedOut };
    let (r, _) = run(&mut sub, &stub);
    assert_eq!(r, Err(BubblegumError::Timeout));
}

#[test]
fn create_tree_end_to_end() {
    let payer = payer_bytes();
    let prepared = create_tree_config(&config(), &tree_args(TOKEN), &payer).unwrap();
    assert_ne!(&prepared.tree_address.bytes[..], &payer[32..]);
    let mut sub = prepared.submission;
    let stub = Stub { token: Some([9u8; 32]), verdict: ChainEvent::Confirmed };
    let (r, sends) = run(&mut sub, &stub);
    let sig = r.unwrap();
    assert_eq!(sends, 1);
    assert_eq!(Some(sig.clone()), sub.signature());
    let tx = sub.transaction().unwrap();
    assert_eq!(tx.signatures.len(), 2);
    assert_eq!(sig, tx.signatures[0].to_string());
    assert!(tx.is_signed());
}

#[test]
fn mint_end_to_end() {
    let args = MintArgs {
        tree_authority: TOKEN.to_string(),
        leaf_owner: NOOP.to_string(),
        merkle_tree: BUBBLEGUM.to_string(),
        metadata_uri: "https://example.com/a.json".to_string(),
        name: "Leaf".to_string(),
        symbol: "LF".to_string(),
    };
    let mut sub = mint_v1(&config(), &args, &payer_bytes()).unwrap();
    let stub = Stub { token: Some([4u8; 32]), verdict: ChainEvent::Confirmed };
    let (r, _) = run(&mut sub, &stub);
    assert_eq!(r.unwrap(), sub.transaction().unwrap().signatures[0].to_string());
    assert_eq!(sub.transaction().unwrap().signatures.len(), 1);
}

#[test]
fn stale_transfer_witness_is_rejected() {
    let stale = [(5u64, 3u32)];
    let args = transfer_args(5, 3);
    let verdict = if stale.contains(&(args.nonce, args.index)) {
        ChainEvent::Rejected
    } else {
        ChainEvent::Confirmed
    };
    let mut sub = transfer_v1(&config(), &args, &payer_bytes()).unwrap();
    let stub = Stub { token: Some([1u8; 32]), verdict };
    let (r, _) = run(&mut sub, &stub);
    assert_eq!(r, Err(BubblegumError::TransactionRejected));
}

#[test]
fn finished_submission_stays_finished() {
    let mut sub = transfer_v1(&config(), &transfer_args(1, 1), &payer_bytes()).unwrap();
    assert!(matches!(sub.step(ChainEvent::TimedOut), SubmitAction::Finish(Err(BubblegumError::Timeout))));
    assert!(matches!(
        sub.step(ChainEvent::TokenReceived([0u8; 32])),
        SubmitAction::Finish(Err(BubblegumError::Timeout))
    ));
    assert_eq!(sub.phase(), Phase::Finished);
    assert!(sub.transaction().is_none());
}

#[test]
fn out_of_order_events_change_nothing() {
    let mut sub = transfer_v1(&config(), &transfer_args(1, 1), &payer_bytes()).unwrap();
    assert!(matches!(sub.step(ChainEvent::Confirmed), SubmitAction::FetchToken));
    assert_eq!(sub.phase(), Phase::AwaitingToken);
    assert!(matches!(sub.step(ChainEvent::TokenReceived([2u8; 32])), SubmitAction::Send));
    assert!(matches!(sub.step(ChainEvent::TokenUnavailable), SubmitAction::Send));
    assert_eq!(sub.phase(), Phase::AwaitingConfirmation);
}

#[test]
fn tree_identity_equal_to_payer_is_refused() {
    let bytes = payer_bytes();
    let payer = KeyMaterial::from_bytes(&bytes).unwrap();
    let same = KeyMaterial::from_bytes(&bytes).unwrap();
    let req = tree_args(TOKEN).validate().unwrap();
    let r = prepare_create_tree(&config(), &req, payer, same);
    assert!(matches!(r, Err(BubblegumError::TreeKeyCollision)));
    let payer = KeyMaterial::from_bytes(&bytes).unwrap();
    let tree = KeyMaterial::generate();
    let tree_address = tree.address();
    let c = prepare_create_tree(&config(), &req, payer, tree).unwrap();
    assert_eq!(c.tree_address, tree_address);
}

#[test]
fn malformed_key_gives_invalid_key_material_in_every_operation() {
    let mut bad = payer_bytes();
    let other = payer_bytes();
    bad[32..].copy_from_slice(&other[32..]);
    let mint = MintArgs {
        tree_authority: TOKEN.to_string(),
        leaf_owner: NOOP.to_string(),
        merkle_tree: BUBBLEGUM.to_string(),
        metadata_uri: "u".to_string(),
        name: "n".to_string(),
        symbol: "s".to_string(),
    };
    for key in [&bad[..], &bad[..10]] {
        assert!(matches!(mint_v1(&config(), &mint, key), Err(BubblegumError::InvalidKeyMaterial)));
        assert!(matches!(
            transfer_v1(&config(), &transfer_args(1, 1), key),
            Err(BubblegumError::InvalidKeyMaterial)
        ));
        assert!(matches!(
            create_tree_config(&config(), &tree_args(TOKEN), key),
            Err(BubblegumError::InvalidKeyMaterial)
        ));
    }
}

#[test]
fn any_witness_reaches_submission() {
    let mut sub = transfer_v1(&config(), &transfer_args(u64::MAX, u32::MAX), &payer_bytes()).unwrap();
    let stub = Stub { token: Some([5u8; 32]), verdict: ChainEvent::Confirmed };
    let (r, sends) = run(&mut sub, &stub);
    assert!(r.is_ok());
    assert_eq!(sends, 1);
    assert_eq!(sub.transaction().unwrap().message.recent_blockhash.to_bytes(), [5u8; 32]);
}

#[test]
fn validated_addresses_round_trip() {
    let q = transfer_args(1, 1).validate().unwrap();
    assert_eq!(q.tree_authority.to_base58(), TOKEN);
    assert_eq!(q.new_leaf_owner.to_base58(), COMPRESSION);
    assert_eq!(q.merkle_tree.to_base58(), BUBBLEGUM);
}
