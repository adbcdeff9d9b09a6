//! 32-byte account and program addresses, and their base-58 text form.

use crate::codec::{base58_decoded, base58_of, decode_base58, encode_base58};
use vstd::prelude::*;

verus! {

/// Number of bytes in an address.
pub const ADDRESS_LEN: usize = 32;

/// A 32-byte account or program identifier.
#[derive(Clone, Copy, Debug, PartialEq, Eq)]
pub struct Address {
    pub bytes: [u8; 32],
}

/// Why a text is not an address.
#[derive(Clone, Copy, Debug, PartialEq, Eq, Structural)]
pub enum AddressError {
    /// The text is not base-58.
    InvalidEncoding,
    /// The text decodes to a number of bytes other than 32.
    WrongLength,
}

/// What parsing the text `s` gives: its bytes, or the reason it is refused.
pub open spec fn parse_spec(s: Seq<char>) -> Result<Seq<u8>, AddressError> {
    match base58_decoded(s) {
        None => Err(AddressError::InvalidEncoding),
        Some(b) => if b.len() == 32 {
            Ok(b)
        } else {
            Err(AddressError::WrongLength)
        },
    }
}

/// The bytes of the address that `s` names, if it names one.
pub open spec fn address_of(s: Seq<char>) -> Option<Seq<u8>> {
    match parse_spec(s) {
        Ok(b) => Some(b),
        Err(_) => None,
    }
}

/// Copies the 32 bytes of `v` that begin at `start`.
pub fn array32(v: &[u8], start: usize) -> (r: [u8; 32])
    requires
        start + 32 <= v@.len(),
        start <= usize::MAX - 32,
    ensures
        r@ == v@.subrange(start as int, start + 32),
{
    let mut a: [u8; 32] = [0u8; 32];
    let mut i: usize = 0;
    while i < 32
        invariant
            i <= 32,
            start + 32 <= v@.len(),
            start <= usize::MAX - 32,
            forall|j: int| 0 <= j < i ==> a@[j] == v@[start + j],
        decreases 32 - i,
    {
        a[i] = v[start + i];
        i = i + 1;
    }
    assert(a@ =~= v@.subrange(start as int, start + 32));
    a
}

impl Address {
    /// Parses the base-58 text of an address.
    pub fn parse(s: &str) -> (r: Result<Address, AddressError>)
        ensures
            match parse_spec(s@) {
                Ok(b) => r is Ok && r->Ok_0.bytes@ == b,
                Err(e) => r == Err::<Address, AddressError>(e),
            },
    {
        match decode_base58(s) {
            None => Err(AddressError::InvalidEncoding),
            Some(v) => {
                if v.len() == ADDRESS_LEN {
                    Ok(Address { bytes: array32(v.as_slice(), 0) })
                } else {
                    Err(AddressError::WrongLength)
                }
            },
        }
    }

    /// The base-58 text of the address; parsing it gives the address back.
    pub fn format(&self) -> (r: String)
        ensures
            r@ == base58_of(self.bytes@),
            parse_spec(r@) == Ok::<Seq<u8>, AddressError>(self.bytes@),
    {
        encode_base58(&self.bytes)
    }
}

} // verus!
