use vstd::prelude::*;

use crate::error::BubblegumError;

verus! {

/// A character of the Bitcoin base58 alphabet (no `0`, `O`, `I`, `l`).
pub open spec fn is_base58_char(c: char) -> bool {
    ('1' <= c && c <= '9') || ('A' <= c && c <= 'H') || ('J' <= c && c <= 'N') || ('P' <= c
        && c <= 'Z') || ('a' <= c && c <= 'k') || ('m' <= c && c <= 'z')
}

/// Every character of `s` is in the base58 alphabet.
pub open spec fn all_base58(s: Seq<char>) -> bool {
    forall|i: int| 0 <= i < s.len() ==> is_base58_char(#[trigger] s[i])
}

/// The bytes that base58 decoding gives for a string of the alphabet.
pub uninterp spec fn base58_decoded(s: Seq<char>) -> Seq<u8>;

/// The base58 text of a byte string.
pub uninterp spec fn base58_encoded(b: Seq<u8>) -> Seq<char>;

/// A string that denotes an address: base58 text of exactly 32 bytes.
pub open spec fn is_address_text(s: Seq<char>) -> bool {
    all_base58(s) && base58_decoded(s).len() == 32
}

/// Relies on `bs58::decode(..).into_vec()`: it fails exactly when a character
/// lies outside the Bitcoin alphabet. On success the leading `1`s become
/// leading zero bytes and the rest becomes the minimal big-endian value, so
/// encoding the bytes again gives back the input.
#[verifier::external_body]
fn base58_decode(s: &str) -> (r: Option<Vec<u8>>)
    ensures
        r is Some <==> all_base58(s@),
        r is Some ==> r->Some_0@ == base58_decoded(s@),
        r is Some ==> base58_encoded(r->Some_0@) == s@,
{
    bs58::decode(s).into_vec().ok()
}

/// Relies on `bs58::encode(..).into_string()` for the base58 text of bytes.
#[verifier::external_body]
pub(crate) fn base58_encode(b: &[u8]) -> (r: String)
    ensures
        r@ == base58_encoded(b@),
{
    bs58::encode(b).into_string()
}

/// A 32-byte on-chain identifier.
#[derive(Debug, Clone, Copy, PartialEq, Eq)]
pub struct Address {
    pub bytes: [u8; 32],
}

impl View for Address {
    type V = Seq<u8>;

    open spec fn view(&self) -> Seq<u8> {
        self.bytes@
    }
}

/// Decodes the base58 text of an address.
///
/// Fails with `InvalidAddress`, and only with it, when a character is outside
/// the alphabet or the decoded length is not 32. On success the address's
/// base58 text is the input itself.
pub fn parse_address(s: &str) -> (r: Result<Address, BubblegumError>)
    ensures
        r is Ok <==> is_address_text(s@),
        r is Err ==> r == Err::<Address, BubblegumError>(BubblegumError::InvalidAddress),
        r is Ok ==> r->Ok_0@ == base58_decoded(s@),
        r is Ok ==> base58_encoded(r->Ok_0@) == s@,
{
    match base58_decode(s) {
        None => Err(BubblegumError::InvalidAddress),
        Some(v) => {
            if v.len() != 32 {
                return Err(BubblegumError::InvalidAddress);
            }
            let mut bytes = [0u8; 32];
            let mut i: usize = 0;
            while i < 32
                invariant
                    v@.len() == 32,
                    0 <= i <= 32,
                    forall|j: int| 0 <= j < i ==> bytes@[j] == v@[j],
                decreases 32 - i,
            {
                bytes[i] = v[i];
                i = i + 1;
            }
            assert(bytes@ =~= v@);
            Ok(Address { bytes })
        },
    }
}

impl Address {
    /// Whether two addresses hold the same bytes.
    pub fn same_as(&self, other: &Address) -> (r: bool)
        ensures
            r == (self@ == other@),
    {
        let mut i: usize = 0;
        while i < 32
            invariant
                0 <= i <= 32,
                forall|j: int| 0 <= j < i ==> self@[j] == other@[j],
            decreases 32 - i,
        {
            if self.bytes[i] != other.bytes[i] {
                return false;
            }
            i = i + 1;
        }
        assert(self@ =~= other@);
        true
    }

    /// The base58 text of the address.
    pub fn to_base58(&self) -> (r: String)
        ensures
            r@ == base58_encoded(self@),
    {
        base58_encode(self.bytes.as_slice())
    }
}

} // verus!
