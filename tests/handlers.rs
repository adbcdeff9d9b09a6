use solana_server::address::Address;
use solana_server::keys::Signature;
use solana_server::routes::{
    create_initialize_mint_instruction, create_mint_to_instruction,
    create_sol_transfer_instruction, create_transfer_instruction, generate_keypair,
    malformed_body, sign_message, verify_signed_message, ErrorResponse,
    InitializeMintInstruction, MintToInstruction, SignMessageRequest, SolTransferInstruction,
    TransferInstruction, VerifySignedMessage,
};

const TOKEN_PROGRAM: &str = "TokenkegQfeZyiNwAJbNbGKPFXCWuBvf9Ss623VQ5DA";
const RENT_SYSVAR: &str = "SysvarRent111111111111111111111111111111111";
const ZERO: &str = "11111111111111111111111111111111";
const SEVENS: &str = "US517G5965aydkZ46HS38QLi7UQiSojurfbQfKCELFx";

fn refusal<T>(r: Result<T, ErrorResponse>) -> String {
    match r {
        Ok(_) => panic!("expected a refusal"),
        Err(e) => {
            assert!(!e.success);
            e.error
        }
    }
}

#[test]
fn error_response_new() {
    let e = ErrorResponse::new("bad".to_string());
    assert!(!e.success);
    assert_eq!(e.error, "bad");
}

#[test]
fn malformed_body_keeps_parser_message() {
    let e = malformed_body("expected value at line 1 column 1");
    assert!(!e.success);
    assert_eq!(e.error, "Failed to deserialize request body: expected value at line 1 column 1");
}

#[test]
fn generate_keypair_gives_matching_halves() {
    let k = generate_keypair();
    let secret = solana_server::keys::KeyPair::decode(&k.secret).unwrap();
    assert_eq!(secret.pubkey().format(), k.pubkey);
}

#[test]
fn generate_keypair_twice_differs() {
    let a = generate_keypair();
    let b = generate_keypair();
    assert_ne!(a.pubkey, b.pubkey);
    assert_ne!(a.secret, b.secret);
}

#[test]
fn create_token_example() {
    let req = InitializeMintInstruction {
        mint: SEVENS.to_string(),
        mint_authority: RENT_SYSVAR.to_string(),
        decimals: 6,
    };
    let r = create_initialize_mint_instruction(&req).unwrap();
    assert_eq!(r.program_id, TOKEN_PROGRAM);
    assert_eq!(r.accounts.len(), 2);
    assert_eq!(r.accounts[0].pubkey, SEVENS);
    assert!(!r.accounts[0].is_signer);
    assert!(r.accounts[0].is_writable);
    assert_eq!(r.accounts[1].pubkey, RENT_SYSVAR);
    assert!(!r.accounts[1].is_signer);
    assert!(!r.accounts[1].is_writable);
    assert_eq!(
        r.instruction_data,
        "AAYGp9UXGSxcUSGMyUw9SvF/WNruCJuh/UTj29mKAAAAAAEGp9UXGSxcUSGMyUw9SvF/WNruCJuh/UTj29mKAAAAAA=="
    );
}

#[test]
fn create_token_field_order() {
    let req = InitializeMintInstruction { mint: "0".to_string(), mint_authority: "0".to_string(), decimals: 6 };
    assert_eq!(refusal(create_initialize_mint_instruction(&req)), "Invalid mint pubkey");
    let req = InitializeMintInstruction { mint: ZERO.to_string(), mint_authority: "11".to_string(), decimals: 6 };
    assert_eq!(refusal(create_initialize_mint_instruction(&req)), "Invalid mint authority pubkey");
}

#[test]
fn mint_token_example() {
    let req = MintToInstruction {
        mint: SEVENS.to_string(),
        destination: ZERO.to_string(),
        authority: RENT_SYSVAR.to_string(),
        amount: 1000,
    };
    let r = create_mint_to_instruction(&req).unwrap();
    assert_eq!(r.program_id, TOKEN_PROGRAM);
    let keys: Vec<&str> = r.accounts.iter().map(|a| a.pubkey.as_str()).collect();
    assert_eq!(keys, vec![SEVENS, ZERO, RENT_SYSVAR]);
    assert!(r.accounts.iter().all(|a| !a.is_signer && a.is_writable));
    assert_eq!(r.instruction_data, "B+gDAAAAAAAA");
}

#[test]
fn mint_token_field_order() {
    let bad = |m: &str, d: &str, a: &str| MintToInstruction {
        mint: m.to_string(),
        destination: d.to_string(),
        authority: a.to_string(),
        amount: 1,
    };
    assert_eq!(refusal(create_mint_to_instruction(&bad("x0", "x0", "x0"))), "Invalid mint address");
    assert_eq!(refusal(create_mint_to_instruction(&bad(ZERO, "x0", "x0"))), "Invalid destination address");
    assert_eq!(refusal(create_mint_to_instruction(&bad(ZERO, ZERO, "1"))), "Invalid authority address");
}

#[test]
fn send_sol_example() {
    let req = SolTransferInstruction { from: SEVENS.to_string(), to: ZERO.to_string(), lamports: 1_000_000 };
    let r = create_sol_transfer_instruction(&req).unwrap();
    assert_eq!(r.program_id, ZERO);
    assert_eq!(r.accounts, vec![SEVENS.to_string(), ZERO.to_string()]);
    assert_eq!(r.instruction_data, "AgAAAEBCDwAAAAAA");
}

#[test]
fn send_sol_zero_lamports_comes_first() {
    let req = SolTransferInstruction { from: "bad!".to_string(), to: "bad!".to_string(), lamports: 0 };
    assert_eq!(refusal(create_sol_transfer_instruction(&req)), "Lamports must be greater than 0");
    let req = SolTransferInstruction { from: SEVENS.to_string(), to: ZERO.to_string(), lamports: 0 };
    assert_eq!(refusal(create_sol_transfer_instruction(&req)), "Lamports must be greater than 0");
}

#[test]
fn send_sol_field_order() {
    let req = SolTransferInstruction { from: "bad!".to_string(), to: "bad!".to_string(), lamports: 5 };
    assert_eq!(refusal(create_sol_transfer_instruction(&req)), "Invalid sender address");
    let req = SolTransferInstruction { from: ZERO.to_string(), to: "bad!".to_string(), lamports: 5 };
    assert_eq!(refusal(create_sol_transfer_instruction(&req)), "Invalid recipient address");
}

#[test]
fn send_token_example() {
    let req = TransferInstruction {
        destination: ZERO.to_string(),
        mint: SEVENS.to_string(),
        owner: RENT_SYSVAR.to_string(),
        amount: 5,
    };
    let r = create_transfer_instruction(&req).unwrap();
    assert_eq!(r.program_id, TOKEN_PROGRAM);
    let keys: Vec<&str> = r.accounts.iter().map(|a| a.pubkey.as_str()).collect();
    assert_eq!(keys, vec![SEVENS, ZERO, RENT_SYSVAR]);
    let signers: Vec<bool> = r.accounts.iter().map(|a| a.is_signer).collect();
    assert_eq!(signers, vec![false, false, true]);
    assert_eq!(r.instruction_data, "AwUAAAAAAAAA");
}

#[test]
fn send_token_field_order() {
    let bad = |d: &str, m: &str, o: &str| TransferInstruction {
        destination: d.to_string(),
        mint: m.to_string(),
        owner: o.to_string(),
        amount: 1,
    };
    assert_eq!(refusal(create_transfer_instruction(&bad("l", "l", "l"))), "Invalid destination pubkey");
    assert_eq!(refusal(create_transfer_instruction(&bad(ZERO, "l", "l"))), "Invalid mint pubkey");
    assert_eq!(refusal(create_transfer_instruction(&bad(ZERO, ZERO, "l"))), "Invalid owner pubkey");
}

#[test]
fn sign_message_refusals() {
    let req = SignMessageRequest { message: "hi".to_string(), secret: "0OIl".to_string() };
    assert_eq!(refusal(sign_message(&req)), "Invalid base58 secret");
    let req = SignMessageRequest { message: "hi".to_string(), secret: ZERO.to_string() };
    assert_eq!(refusal(sign_message(&req)), "Invalid keypair bytes");
    let req = SignMessageRequest { message: "hi".to_string(), secret: "1".repeat(64) };
    assert_eq!(refusal(sign_message(&req)), "Invalid keypair bytes");
}

#[test]
fn sign_then_verify_through_handlers() {
    let k = generate_keypair();
    let signed = sign_message(&SignMessageRequest { message: "gm".to_string(), secret: k.secret.clone() }).unwrap();
    assert_eq!(signed.public_key, k.pubkey);
    assert_eq!(signed.message, "gm");
    assert_eq!(Address::parse(&signed.public_key).unwrap().format(), k.pubkey);
    let sig = Signature::decode_base58(&signed.signature).unwrap();
    let req = VerifySignedMessage {
        message: "gm".to_string(),
        signature: sig.encode_base64(),
        pubkey: k.pubkey.clone(),
    };
    let r = verify_signed_message(&req).unwrap();
    assert!(r.valid);
    assert_eq!(r.message, "gm");
    assert_eq!(r.pubkey, k.pubkey);
    let flipped = VerifySignedMessage { message: "gn".to_string(), ..req };
    assert!(!verify_signed_message(&flipped).unwrap().valid);
}

#[test]
fn verify_message_refusals() {
    let req = VerifySignedMessage { message: "m".to_string(), signature: "***".to_string(), pubkey: "0".to_string() };
    assert_eq!(refusal(verify_signed_message(&req)), "Invalid signature");
    let req = VerifySignedMessage { message: "hi".to_string(), signature: "!!".to_string(), pubkey: "0".to_string() };
    assert_eq!(refusal(verify_signed_message(&req)), "Invalid signature");
    let req = VerifySignedMessage { message: "m".to_string(), signature: "***".to_string(), pubkey: ZERO.to_string() };
    assert_eq!(refusal(verify_signed_message(&req)), "Invalid signature");
    let req = VerifySignedMessage { message: "m".to_string(), signature: "AAAA".to_string(), pubkey: ZERO.to_string() };
    assert_eq!(refusal(verify_signed_message(&req)), "Invalid signature");
    let sig = Signature { bytes: [1u8; 64] };
    let req = VerifySignedMessage { message: "m".to_string(), signature: sig.encode_base64(), pubkey: "0".to_string() };
    assert_eq!(refusal(verify_signed_message(&req)), "Invalid pubkey");
}

#[test]
fn verify_message_mismatch_is_false() {
    let sig = Signature { bytes: [1u8; 64] };
    let req = VerifySignedMessage { message: "m".to_string(), signature: sig.encode_base64(), pubkey: SEVENS.to_string() };
    let r = verify_signed_message(&req).unwrap();
    assert!(!r.valid);
    let _ = Address::parse(SEVENS).unwrap();
}
