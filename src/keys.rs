//! Ed25519 key pairs and signatures: generation, base-58 and base64 text
//! forms, signing and verification.

use crate::address::{array32, Address};
use crate::codec::{
    base58_decoded, base58_of, base64_decoded, base64_of, decode_base58, decode_base64,
    encode_base58, encode_base64,
};
use solana_sdk::signer::Signer;
use vstd::prelude::*;

verus! {

/// Number of bytes in a key pair: the secret seed, then the public key.
pub const KEYPAIR_LEN: usize = 64;

/// Number of bytes in a signature.
pub const SIGNATURE_LEN: usize = 64;

/// Whether 64 bytes form a key pair: a secret seed followed by the public key
/// that the seed derives.
pub uninterp spec fn keypair_bytes_valid(b: Seq<u8>) -> bool;

/// The ed25519 signature of `message` under the key pair `keypair`.
pub uninterp spec fn signature_of(keypair: Seq<u8>, message: Seq<u8>) -> Seq<u8>;

/// Whether `signature` is a valid ed25519 signature of `message` under `pubkey`.
pub uninterp spec fn signature_valid(pubkey: Seq<u8>, message: Seq<u8>, signature: Seq<u8>) -> bool;

/// Relies on `Keypair::new()` and `Keypair::to_bytes`: fresh key material from
/// the operating system's random source; the public half is derived from the
/// seed, so `Keypair::try_from` accepts the bytes.
#[verifier::external_body]
fn random_keypair_bytes() -> (r: [u8; 64])
    ensures
        keypair_bytes_valid(r@),
{
    solana_sdk::signature::Keypair::new().to_bytes()
}

/// Relies on `Keypair::try_from(&[u8])`: it accepts the bytes exactly when
/// they are a seed followed by the public key derived from it, and
/// `Keypair::to_bytes` gives them back.
#[verifier::external_body]
fn keypair_from_bytes(b: &[u8]) -> (r: Option<[u8; 64]>)
    ensures
        r is Some <==> keypair_bytes_valid(b@),
        r is Some ==> r->Some_0@ == b@,
{
    solana_sdk::signature::Keypair::try_from(b).ok().map(|k| k.to_bytes())
}

/// Relies on `Keypair::try_from(&[u8])` and `Keypair::sign_message`: the
/// deterministic ed25519 signature, which verifies under the key pair's
/// public half.
#[verifier::external_body]
fn sign_with(keypair: &[u8; 64], message: &[u8]) -> (r: Option<[u8; 64]>)
    ensures
        r is Some <==> keypair_bytes_valid(keypair@),
        r is Some ==> r->Some_0@ == signature_of(keypair@, message@),
        r is Some ==> signature_valid(keypair@.subrange(32, 64), message@, r->Some_0@),
{
    solana_sdk::signature::Keypair::try_from(&keypair[..]).ok().map(|k| k.sign_message(message).into())
}

/// Relies on `Signature::verify`: whether the signature is valid for the
/// message under the public key.
#[verifier::external_body]
fn check_signature(signature: &[u8; 64], pubkey: &[u8; 32], message: &[u8]) -> (r: bool)
    ensures
        r == signature_valid(pubkey@, message@, signature@),
{
    solana_sdk::signature::Signature::from(*signature).verify(pubkey, message)
}

/// Why a text is not a key pair.
#[derive(Clone, Copy, Debug, PartialEq, Eq, Structural)]
pub enum KeyError {
    /// The text is not base-58.
    InvalidEncoding,
    /// The text decodes to a number of bytes other than 64.
    WrongLength,
    /// The 64 bytes are not a seed followed by its public key.
    MalformedKey,
}

/// Why a text is not a signature.
#[derive(Clone, Copy, Debug, PartialEq, Eq, Structural)]
pub enum SignatureError {
    /// The text is not in the expected encoding.
    InvalidEncoding,
    /// The text decodes to a number of bytes other than 64.
    WrongLength,
}

/// What decoding the base-58 text `s` of a key pair gives.
pub open spec fn keypair_decode_spec(s: Seq<char>) -> Result<Seq<u8>, KeyError> {
    match base58_decoded(s) {
        None => Err(KeyError::InvalidEncoding),
        Some(b) => if b.len() != 64 {
            Err(KeyError::WrongLength)
        } else if !keypair_bytes_valid(b) {
            Err(KeyError::MalformedKey)
        } else {
            Ok(b)
        },
    }
}

/// What decoding a signature text gives, where `decoded` is what the text's
/// encoding makes of it.
pub open spec fn signature_decode_spec(decoded: Option<Seq<u8>>) -> Result<Seq<u8>, SignatureError> {
    match decoded {
        None => Err(SignatureError::InvalidEncoding),
        Some(b) => if b.len() == 64 {
            Ok(b)
        } else {
            Err(SignatureError::WrongLength)
        },
    }
}

/// Copies the first 64 bytes of `v`.
pub fn array64(v: &[u8]) -> (r: [u8; 64])
    requires
        v@.len() >= 64,
    ensures
        r@ == v@.subrange(0, 64),
{
    let mut a: [u8; 64] = [0u8; 64];
    let mut i: usize = 0;
    while i < 64
        invariant
            i <= 64,
            v@.len() >= 64,
            forall|j: int| 0 <= j < i ==> a@[j] == v@[j],
        decreases 64 - i,
    {
        a[i] = v[i];
        i = i + 1;
    }
    assert(a@ =~= v@.subrange(0, 64));
    a
}

/// An ed25519 key pair: 32 secret bytes, then the 32 bytes of the public key.
#[derive(Debug)]
pub struct KeyPair {
    bytes: [u8; 64],
}

impl View for KeyPair {
    type V = Seq<u8>;

    closed spec fn view(&self) -> Seq<u8> {
        self.bytes@
    }
}

impl KeyPair {
    #[verifier::type_invariant]
    spec fn inv(&self) -> bool {
        keypair_bytes_valid(self.bytes@)
    }

    /// A fresh key pair from a secure random source.
    pub fn generate() -> (r: KeyPair)
        ensures
            keypair_bytes_valid(r@),
    {
        KeyPair { bytes: random_keypair_bytes() }
    }

    /// Decodes the base-58 text of the 64 key-pair bytes.
    pub fn decode(s: &str) -> (r: Result<KeyPair, KeyError>)
        ensures
            match keypair_decode_spec(s@) {
                Ok(b) => r is Ok && r->Ok_0@ == b,
                Err(e) => r == Err::<KeyPair, KeyError>(e),
            },
    {
        match decode_base58(s) {
            None => Err(KeyError::InvalidEncoding),
            Some(v) => {
                if v.len() != KEYPAIR_LEN {
                    Err(KeyError::WrongLength)
                } else {
                    match keypair_from_bytes(v.as_slice()) {
                        Some(bytes) => Ok(KeyPair { bytes }),
                        None => Err(KeyError::MalformedKey),
                    }
                }
            },
        }
    }

    /// The base-58 text of the 64 key-pair bytes; decoding it gives the key
    /// pair back.
    pub fn encode(&self) -> (r: String)
        ensures
            r@ == base58_of(self@),
            keypair_decode_spec(r@) == Ok::<Seq<u8>, KeyError>(self@),
    {
        proof {
            use_type_invariant(self);
        }
        encode_base58(&self.bytes)
    }

    /// The public half: the last 32 bytes.
    pub fn pubkey(&self) -> (r: Address)
        ensures
            r.bytes@ == self@.subrange(32, 64),
    {
        Address { bytes: array32(&self.bytes, 32) }
    }

    /// The ed25519 signature of `message`, which verifies under `pubkey()`.
    pub fn sign(&self, message: &[u8]) -> (r: Signature)
        ensures
            r.bytes@ == signature_of(self@, message@),
            signature_valid(self@.subrange(32, 64), message@, r.bytes@),
    {
        proof {
            use_type_invariant(self);
        }
        match sign_with(&self.bytes, message) {
            Some(bytes) => Signature { bytes },
            None => {
                proof {
                    assert(false);
                }
                Signature { bytes: [0u8; 64] }
            },
        }
    }
}

/// A 64-byte ed25519 signature.
#[derive(Clone, Copy, Debug, PartialEq, Eq)]
pub struct Signature {
    pub bytes: [u8; 64],
}

impl Signature {
    /// Decodes base-58 signature text.
    pub fn decode_base58(s: &str) -> (r: Result<Signature, SignatureError>)
        ensures
            match signature_decode_spec(base58_decoded(s@)) {
                Ok(b) => r is Ok && r->Ok_0.bytes@ == b,
                Err(e) => r == Err::<Signature, SignatureError>(e),
            },
    {
        Self::from_decoded(decode_base58(s))
    }

    /// Decodes base64 signature text.
    pub fn decode_base64(s: &str) -> (r: Result<Signature, SignatureError>)
        ensures
            match signature_decode_spec(base64_decoded(s@)) {
                Ok(b) => r is Ok && r->Ok_0.bytes@ == b,
                Err(e) => r == Err::<Signature, SignatureError>(e),
            },
    {
        Self::from_decoded(decode_base64(s))
    }

    fn from_decoded(decoded: Option<Vec<u8>>) -> (r: Result<Signature, SignatureError>)
        ensures
            match signature_decode_spec(match decoded { Some(v) => Some(v@), None => None }) {
                Ok(b) => r is Ok && r->Ok_0.bytes@ == b,
                Err(e) => r == Err::<Signature, SignatureError>(e),
            },
    {
        match decoded {
            None => Err(SignatureError::InvalidEncoding),
            Some(v) => {
                if v.len() == SIGNATURE_LEN {
                    Ok(Signature { bytes: array64(v.as_slice()) })
                } else {
                    Err(SignatureError::WrongLength)
                }
            },
        }
    }

    /// The base-58 text of the signature; decoding it gives the signature back.
    pub fn encode_base58(&self) -> (r: String)
        ensures
            r@ == base58_of(self.bytes@),
            signature_decode_spec(base58_decoded(r@)) == Ok::<Seq<u8>, SignatureError>(self.bytes@),
    {
        encode_base58(&self.bytes)
    }

    /// The base64 text of the signature; decoding it gives the signature back.
    pub fn encode_base64(&self) -> (r: String)
        ensures
            r@ == base64_of(self.bytes@),
            signature_decode_spec(base64_decoded(r@)) == Ok::<Seq<u8>, SignatureError>(self.bytes@),
    {
        encode_base64(&self.bytes)
    }

    /// Whether the signature is valid for `message` under `pubkey`; a
    /// mismatch is `false`, never an error.
    pub fn verify(&self, pubkey: &Address, message: &[u8]) -> (r: bool)
        ensures
            r == signature_valid(pubkey.bytes@, message@, self.bytes@),
    {
        check_signature(&self.bytes, &pubkey.bytes, message)
    }
}

} // verus!
