//! Local identities and the rendezvous keys derived from them.
use vstd::prelude::*;
use vstd::string::StringSliceAdditionalSpecFns;
use vstd::utf8::encode_utf8;
use rand::RngCore;
use sha1::Digest;
use crate::hexcodec::{
    decode_hex, encode_hex, hex_decoded, hex_encoded, is_first_non_hex, is_valid_hex, lemma_hex_round_trip,
    HexError,
};

verus! {

/// Number of random bytes in a generated identity.
pub const IDENTITY_BYTES: usize = 16;

/// Number of bytes in a rendezvous key (160 bits).
pub const KEY_BYTES: usize = 20;

/// The SHA-1 digest of a byte sequence.
pub uninterp spec fn sha1_of(data: Seq<u8>) -> Seq<u8>;

/// The key that an identity's hex text is published under: the SHA-1 digest
/// of the bytes that the text stands for.
pub open spec fn key_of_identity(text: Seq<u8>) -> Seq<u8> {
    sha1_of(hex_decoded(text))
}

/// A 160-bit rendezvous key, the lookup key in the distributed directory.
#[derive(Debug, Clone, Copy, PartialEq, Eq, Hash)]
pub struct RendezvousKey {
    pub bytes: [u8; 20],
}

impl View for RendezvousKey {
    type V = Seq<u8>;

    open spec fn view(&self) -> Seq<u8> {
        self.bytes@
    }
}

impl RendezvousKey {
    /// The key's raw bytes.
    pub fn to_bytes(&self) -> (r: [u8; 20])
        ensures
            r@ == self@,
    {
        self.bytes
    }

    /// The key as forty lowercase hex digits.
    pub fn to_hex(&self) -> (r: String)
        ensures
            r@ == hex_encoded(self@),
            r@.len() == 2 * KEY_BYTES,
    {
        encode_hex(self.bytes.as_slice())
    }
}

/// Relies on `sha1::Sha1` (through `Digest::new`, `update`, `finalize`): the
/// digest is a function of the input bytes alone.
#[verifier::external_body]
fn sha1_digest(data: &[u8]) -> (r: [u8; 20])
    ensures
        r@ == sha1_of(data@),
{
    let mut hasher = sha1::Sha1::new();
    hasher.update(data);
    hasher.finalize().into()
}

/// Relies on `rand::thread_rng` and `RngCore::fill_bytes`: sixteen bytes
/// drawn at random; nothing is known of their values.
#[verifier::external_body]
fn random_identity_bytes() -> (r: [u8; 16]) {
    let mut bytes = [0u8; 16];
    rand::thread_rng().fill_bytes(&mut bytes);
    bytes
}

/// Derives the rendezvous key of a hex identity: the text is decoded into
/// bytes and the key is their SHA-1 digest. Malformed hex (odd length, a
/// character that is not a hex digit) fails with the decoding error.
pub fn derive_infohash(id_hex: &str) -> (r: Result<RendezvousKey, HexError>)
    ensures
        r is Ok <==> is_valid_hex(id_hex.spec_bytes()),
        r is Ok ==> r->Ok_0@ == key_of_identity(id_hex.spec_bytes()),
        r == Err::<RendezvousKey, HexError>(HexError::OddLength) <==> id_hex.spec_bytes().len() % 2
            == 1,
        r matches Err(HexError::InvalidHexCharacter { c, index }) ==> is_first_non_hex(
            id_hex.spec_bytes(),
            index as int,
        ) && c == (id_hex.spec_bytes()[index as int] as char),
        !(r matches Err(HexError::InvalidStringLength)),
{
    match decode_hex(id_hex) {
        Ok(raw) => {
            let digest = sha1_digest(raw.as_slice());
            Ok(RendezvousKey { bytes: digest })
        },
        Err(e) => Err(e),
    }
}

/// The rendezvous key of raw identity bytes.
pub fn key_from_identity_bytes(raw: &[u8]) -> (r: RendezvousKey)
    ensures
        r@ == sha1_of(raw@),
{
    RendezvousKey { bytes: sha1_digest(raw) }
}

/// A fresh identity: sixteen random bytes as thirty-two lowercase hex digits.
pub fn random_hex_id() -> (r: String)
    ensures
        r@.len() == 2 * IDENTITY_BYTES,
        exists|raw: Seq<u8>| raw.len() == IDENTITY_BYTES && r@ == hex_encoded(raw),
        is_valid_hex(encode_utf8(r@)),
{
    let raw = random_identity_bytes();
    let r = encode_hex(raw.as_slice());
    assert(raw@.len() == IDENTITY_BYTES);
    proof {
        lemma_hex_round_trip(raw@);
    }
    r
}

/// Derivation is deterministic: two keys derived from the same identity text,
/// in any run or on any host, are the same bytes.
pub proof fn lemma_derive_deterministic(id_hex: Seq<u8>, first: RendezvousKey, second: RendezvousKey)
    requires
        is_valid_hex(id_hex),
        first@ == key_of_identity(id_hex),
        second@ == key_of_identity(id_hex),
    ensures
        first@ == second@,
        first.bytes == second.bytes,
{
    assert forall|i: int| 0 <= i < 20 implies first.bytes[i] == second.bytes[i] by {
        assert(first.bytes@[i] == second.bytes@[i]);
    }
    assert(first.bytes =~= second.bytes);
}

/// A generated identity always yields a key: its text is valid hex, and the
/// key is the digest of the random bytes it was made from.
pub proof fn lemma_generated_identity_derives(raw: Seq<u8>)
    ensures
        is_valid_hex(encode_utf8(hex_encoded(raw))),
        key_of_identity(encode_utf8(hex_encoded(raw))) == sha1_of(raw),
{
    lemma_hex_round_trip(raw);
}

} // verus!
