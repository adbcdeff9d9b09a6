use solana_server::address::{Address, AddressError};
use solana_server::keys::{KeyError, KeyPair, Signature, SignatureError};

const TOKEN_PROGRAM: &str = "TokenkegQfeZyiNwAJbNbGKPFXCWuBvf9Ss623VQ5DA";

#[test]
fn address_parses_known_text() {
    let zero = Address::parse("11111111111111111111111111111111").unwrap();
    assert_eq!(zero.bytes, [0u8; 32]);
    let token = Address::parse(TOKEN_PROGRAM).unwrap();
    assert_eq!(token.bytes[0], 6);
    assert_eq!(token.bytes[1], 221);
    assert_eq!(token.bytes[31], 169);
}

#[test]
fn address_formats_known_bytes() {
    let a = Address { bytes: [7u8; 32] };
    assert_eq!(a.format(), "US517G5965aydkZ46HS38QLi7UQiSojurfbQfKCELFx");
    let mut counting = [0u8; 32];
    for (i, b) in counting.iter_mut().enumerate() {
        *b = i as u8;
    }
    assert_eq!(Address { bytes: counting }.format(), "1thX6LZfHDZZKUs92febYZhYRcXddmzfzF2NvTkPNE");
}

#[test]
fn address_round_trip() {
    for fill in [0u8, 1, 99, 255] {
        let a = Address { bytes: [fill; 32] };
        assert_eq!(Address::parse(&a.format()), Ok(a));
    }
}

#[test]
fn address_refuses_bad_alphabet() {
    assert_eq!(Address::parse("0OIl"), Err(AddressError::InvalidEncoding));
}

#[test]
fn address_refuses_wrong_length() {
    assert_eq!(Address::parse("1111"), Err(AddressError::WrongLength));
    assert_eq!(Address::parse(""), Err(AddressError::WrongLength));
}

#[test]
fn keypair_round_trip() {
    let k = KeyPair::generate();
    let text = k.encode();
    let back = KeyPair::decode(&text).unwrap();
    assert_eq!(back.encode(), text);
    assert_eq!(back.pubkey(), k.pubkey());
}

#[test]
fn keypair_refuses_bad_text() {
    assert_eq!(KeyPair::decode("0").unwrap_err(), KeyError::InvalidEncoding);
    assert_eq!(KeyPair::decode("11111111111111111111111111111111").unwrap_err(), KeyError::WrongLength);
    let zeros = "1".repeat(64);
    assert_eq!(KeyPair::decode(&zeros).unwrap_err(), KeyError::MalformedKey);
}

#[test]
fn keypair_pubkey_is_second_half() {
    let k = KeyPair::generate();
    let text = k.encode();
    assert_eq!(Address::parse(&text), Err(AddressError::WrongLength));
    let bytes = bs58::decode(&text).into_vec().unwrap();
    assert_eq!(bytes.len(), 64);
    assert_eq!(&k.pubkey().bytes[..], &bytes[32..]);
}

#[test]
fn sign_then_verify() {
    let k = KeyPair::generate();
    let sig = k.sign(b"hello");
    assert!(sig.verify(&k.pubkey(), b"hello"));
    assert!(!sig.verify(&k.pubkey(), b"hellp"));
    assert_eq!(k.sign(b"hello"), sig);
}

#[test]
fn signature_of_other_key_does_not_verify() {
    let k1 = KeyPair::generate();
    let k2 = KeyPair::generate();
    let sig = k2.sign(b"message");
    assert!(!sig.verify(&k1.pubkey(), b"message"));
}

#[test]
fn signature_text_round_trips() {
    let k = KeyPair::generate();
    let sig = k.sign(b"round trip");
    assert_eq!(Signature::decode_base58(&sig.encode_base58()), Ok(sig));
    assert_eq!(Signature::decode_base64(&sig.encode_base64()), Ok(sig));
    assert_ne!(sig.encode_base58(), sig.encode_base64());
}

#[test]
fn signature_refuses_bad_text() {
    assert_eq!(Signature::decode_base64("***"), Err(SignatureError::InvalidEncoding));
    assert_eq!(Signature::decode_base64("AAAA"), Err(SignatureError::WrongLength));
    assert_eq!(Signature::decode_base58("0"), Err(SignatureError::InvalidEncoding));
    assert_eq!(Signature::decode_base58("1111"), Err(SignatureError::WrongLength));
    let s = Signature { bytes: [9u8; 64] };
    assert_eq!(s.encode_base64().len(), 88);
}
