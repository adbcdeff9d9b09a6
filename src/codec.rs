//! Text encodings of binary values: base-58 (Bitcoin alphabet) and base64
//! (standard alphabet, padded).

use base64::Engine;
use vstd::prelude::*;

verus! {

/// The base-58 text of a byte sequence.
pub uninterp spec fn base58_of(b: Seq<u8>) -> Seq<char>;

/// The bytes that a base-58 text stands for, if it is well formed.
pub uninterp spec fn base58_decoded(s: Seq<char>) -> Option<Seq<u8>>;

/// The 64 digits of base64, in order of value.
pub open spec fn base64_digits() -> Seq<char> {
    seq![
        'A', 'B', 'C', 'D', 'E', 'F', 'G', 'H', 'I', 'J', 'K', 'L', 'M', 'N', 'O', 'P',
        'Q', 'R', 'S', 'T', 'U', 'V', 'W', 'X', 'Y', 'Z', 'a', 'b', 'c', 'd', 'e', 'f',
        'g', 'h', 'i', 'j', 'k', 'l', 'm', 'n', 'o', 'p', 'q', 'r', 's', 't', 'u', 'v',
        'w', 'x', 'y', 'z', '0', '1', '2', '3', '4', '5', '6', '7', '8', '9', '+', '/',
    ]
}

/// The padded base64 text of a byte sequence: each group of three bytes
/// gives four digits of six bits each, big-endian; a last group of one or
/// two bytes is padded with `=` to four characters.
pub open spec fn base64_of(b: Seq<u8>) -> Seq<char>
    decreases b.len(),
{
    let d = base64_digits();
    if b.len() == 0 {
        seq![]
    } else if b.len() == 1 {
        let n = b[0] as int;
        seq![d[n / 4], d[(n % 4) * 16], '=', '=']
    } else if b.len() == 2 {
        let n = b[0] as int * 256 + b[1] as int;
        seq![d[n / 1024], d[(n / 16) % 64], d[(n % 16) * 4], '=']
    } else {
        let n = b[0] as int * 65536 + b[1] as int * 256 + b[2] as int;
        seq![d[n / 262144], d[(n / 4096) % 64], d[(n / 64) % 64], d[n % 64]] + base64_of(b.subrange(3, b.len() as int))
    }
}

/// The bytes that a padded base64 text stands for, if it is well formed.
pub uninterp spec fn base64_decoded(s: Seq<char>) -> Option<Seq<u8>>;

/// Relies on `bs58::encode(..).into_string()`: the base-58 text of the bytes,
/// which `bs58::decode` turns back into the same bytes.
#[verifier::external_body]
pub fn encode_base58(b: &[u8]) -> (r: String)
    ensures
        r@ == base58_of(b@),
        base58_decoded(r@) == Some(b@),
{
    bs58::encode(b).into_string()
}

/// Relies on `bs58::decode(..).into_vec()`: the decoded bytes, or an error
/// where the text holds a character outside the alphabet.
#[verifier::external_body]
pub fn decode_base58(s: &str) -> (r: Option<Vec<u8>>)
    ensures
        match r {
            Some(v) => base58_decoded(s@) == Some(v@),
            None => base58_decoded(s@) is None,
        },
{
    bs58::decode(s).into_vec().ok()
}

/// Relies on `base64::engine::general_purpose::STANDARD.encode`: the padded
/// base64 text of the bytes, which the same engine decodes back into them.
#[verifier::external_body]
pub fn encode_base64(b: &[u8]) -> (r: String)
    ensures
        r@ == base64_of(b@),
        base64_decoded(r@) == Some(b@),
{
    base64::engine::general_purpose::STANDARD.encode(b)
}

/// Relies on `base64::engine::general_purpose::STANDARD.decode`: the decoded
/// bytes, or an error where the text is not padded base64.
#[verifier::external_body]
pub fn decode_base64(s: &str) -> (r: Option<Vec<u8>>)
    ensures
        match r {
            Some(v) => base64_decoded(s@) == Some(v@),
            None => base64_decoded(s@) is None,
        },
{
    base64::engine::general_purpose::STANDARD.decode(s).ok()
}

} // verus!
