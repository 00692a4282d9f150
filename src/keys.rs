use vstd::prelude::*;

use solana_sdk::instruction::{AccountMeta, Instruction};
use solana_sdk::pubkey::Pubkey;
use solana_sdk::signer::keypair::Keypair;
use solana_sdk::signer::Signer;
use solana_sdk::transaction::Transaction;

use crate::address::Address;
use crate::error::BubblegumError;
use crate::instruction::{required_signers, InstructionDescriptor};

verus! {

#[verifier::external_type_specification]
#[verifier::external_body]
pub struct ExKeypair(Keypair);

#[verifier::external_type_specification]
#[verifier::external_body]
pub struct ExTransaction(Transaction);

/// The bytes are a keypair: 64 bytes whose public half decodes and is the key
/// derived from the secret half.
pub uninterp spec fn keypair_ok(b: Seq<u8>) -> bool;

/// Relies on solana-sdk's `Keypair::from_bytes`, which refuses any slice
/// whose length is not 64 (and pairs whose public half is not derived from
/// the secret half), and keeps bytes 32..64 as the public key; and on
/// `Signer::pubkey`, which returns that public key.
#[verifier::external_body]
fn keypair_from_bytes(b: &[u8]) -> (r: Option<(Keypair, [u8; 32])>)
    ensures
        r is Some <==> keypair_ok(b@),
        b@.len() != 64 ==> r is None,
        r is Some ==> r->Some_0.1@ == b@.subrange(32, 64),
{
    match Keypair::from_bytes(b) {
        Ok(k) => {
            let a = k.pubkey().to_bytes();
            Some((k, a))
        },
        Err(_) => None,
    }
}

/// Relies on solana-sdk's `Keypair::new`, a keypair drawn from the operating
/// system's random source, and on `Signer::pubkey` for its public key.
/// Nothing is promised of the values.
#[verifier::external_body]
fn keypair_new() -> (r: (Keypair, [u8; 32])) {
    let k = Keypair::new();
    let a = k.pubkey().to_bytes();
    (k, a)
}

/// A signing keypair with its public address; the address is the keypair's
/// own public key.
pub struct KeyMaterial {
    keypair: Keypair,
    address: Address,
}

impl KeyMaterial {
    /// The public address of the keypair.
    pub closed spec fn addr(&self) -> Address {
        self.address
    }

    /// Parses 64 bytes: a secret key followed by its public key.
    ///
    /// Succeeds exactly on a well-formed keypair; any other length, or a
    /// public half that is not the secret half's key, fails with
    /// `InvalidKeyMaterial`. On success the address is the last 32 bytes.
    pub fn from_bytes(bytes: &[u8]) -> (r: Result<KeyMaterial, BubblegumError>)
        ensures
            r is Ok <==> keypair_ok(bytes@),
            bytes@.len() != 64 ==> r is Err,
            r is Err ==> r->Err_0 == BubblegumError::InvalidKeyMaterial,
            r is Ok ==> r->Ok_0.addr()@ == bytes@.subrange(32, 64),
    {
        match keypair_from_bytes(bytes) {
            Some((keypair, a)) => Ok(KeyMaterial { keypair, address: Address { bytes: a } }),
            None => Err(BubblegumError::InvalidKeyMaterial),
        }
    }

    /// A fresh keypair, for a new tree identity.
    pub fn generate() -> (r: KeyMaterial) {
        let (keypair, a) = keypair_new();
        KeyMaterial { keypair, address: Address { bytes: a } }
    }

    /// The public address of the keypair.
    pub fn address(&self) -> (r: Address)
        ensures
            r == self.addr(),
    {
        self.address
    }
}

/// The addresses of the keys handed to signing.
pub open spec fn key_set(payer: Address, other: Option<Address>) -> Set<Address> {
    match other {
        Some(k) => set![payer, k],
        None => set![payer],
    }
}

/// The address of an optional key.
pub open spec fn opt_addr(k: Option<&KeyMaterial>) -> Option<Address> {
    match k {
        Some(k) => Some(k.addr()),
        None => None,
    }
}

/// Relies on solana-sdk's `Transaction::new_signed_with_payer`, which builds
/// the message with `payer` as fee payer and signs it with the keypairs; it
/// panics unless those keypairs are exactly the message's required signers,
/// hence the `requires`. The first signature is the fee payer's and names the
/// transaction. Nothing is promised of the values.
#[verifier::external_body]
pub(crate) fn sign_transaction(
    ix: &InstructionDescriptor,
    payer: &KeyMaterial,
    other: Option<&KeyMaterial>,
    token: [u8; 32],
) -> (r: (Transaction, [u8; 64]))
    requires
        required_signers(ix, payer.addr()) == key_set(payer.addr(), opt_addr(other)),
{
    let accounts = ix.accounts.iter().map(|a| AccountMeta {
        pubkey: Pubkey::new_from_array(a.address.bytes),
        is_signer: a.is_signer,
        is_writable: a.is_writable,
    }).collect();
    let ins = Instruction { program_id: Pubkey::new_from_array(ix.program.bytes), accounts, data: ix.data.clone() };
    let keys = match other { Some(k) => vec![&payer.keypair, &k.keypair], None => vec![&payer.keypair] };
    let fee_payer = Pubkey::new_from_array(payer.address.bytes);
    let hash = solana_sdk::hash::Hash::new_from_array(token);
    let tx = Transaction::new_signed_with_payer(&[ins], Some(&fee_payer), &keys, hash);
    let sig: [u8; 64] = tx.signatures[0].into();
    (tx, sig)
}

} // verus!
