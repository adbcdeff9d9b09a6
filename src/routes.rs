//! The request handlers: each checks its fields in order, stops at the first
//! that fails, and otherwise builds or signs and encodes the result.

use crate::address::{address_of, Address};
use crate::codec::{base58_decoded, base58_of, base64_decoded, base64_of, encode_base64};
use crate::instruction::{
    initialize_mint, initialize_mint_data, mint_to, mint_to_data, rent_sysvar_bytes,
    system_program_bytes, system_transfer_data, token_program_bytes, token_transfer_data,
    transfer_native, transfer_token, Instruction,
};
use crate::keys::{
    keypair_bytes_valid, keypair_decode_spec, signature_decode_spec, signature_of,
    signature_valid, KeyError, KeyPair, Signature, SignatureError,
};
use vstd::prelude::*;
use vstd::string::StringExecFns;
use vstd::utf8::encode_utf8;

verus! {

/// Body of a request for an InitializeMint instruction.
#[derive(Clone, Debug)]
pub struct InitializeMintInstruction {
    pub mint: String,
    pub mint_authority: String,
    pub decimals: u8,
}

/// Body of a request for a MintTo instruction.
#[derive(Clone, Debug)]
pub struct MintToInstruction {
    pub mint: String,
    pub destination: String,
    pub authority: String,
    pub amount: u64,
}

/// Body of a request for a native transfer instruction.
#[derive(Clone, Debug)]
pub struct SolTransferInstruction {
    pub from: String,
    pub to: String,
    pub lamports: u64,
}

/// Body of a request for a token Transfer instruction.
#[derive(Clone, Debug)]
pub struct TransferInstruction {
    pub destination: String,
    pub mint: String,
    pub owner: String,
    pub amount: u64,
}

/// Body of a request to sign a message with a base-58 key pair.
#[derive(Clone, Debug)]
pub struct SignMessageRequest {
    pub message: String,
    pub secret: String,
}

/// Body of a request to verify a base64 signature of a message.
#[derive(Clone, Debug)]
pub struct VerifySignedMessage {
    pub message: String,
    pub signature: String,
    pub pubkey: String,
}

/// The answer to a refused request.
#[derive(Clone, Debug)]
pub struct ErrorResponse {
    pub success: bool,
    pub error: String,
}

impl ErrorResponse {
    /// A failure carrying `error` as its message.
    pub fn new(error: String) -> (r: ErrorResponse)
        ensures
            !r.success,
            r.error@ == error@,
    {
        ErrorResponse { success: false, error }
    }
}

/// A fresh key pair as base-58 text.
#[derive(Clone, Debug)]
pub struct KeypairResponse {
    pub pubkey: String,
    pub secret: String,
}

/// One account of an instruction, as answered.
#[derive(Clone, Debug)]
pub struct AccountResponse {
    pub pubkey: String,
    pub is_signer: bool,
    pub is_writable: bool,
}

/// An instruction of the token program, as answered.
#[derive(Clone, Debug)]
pub struct InstructionResponse {
    pub program_id: String,
    pub accounts: Vec<AccountResponse>,
    pub instruction_data: String,
}

/// A native transfer instruction, as answered: accounts without role flags.
#[derive(Clone, Debug)]
pub struct SolTransferResponse {
    pub program_id: String,
    pub accounts: Vec<String>,
    pub instruction_data: String,
}

/// A signed message.
#[derive(Clone, Debug)]
pub struct SignResponse {
    pub signature: String,
    pub public_key: String,
    pub message: String,
}

/// The outcome of a verification.
#[derive(Clone, Debug)]
pub struct VerifyResponse {
    pub valid: bool,
    pub message: String,
    pub pubkey: String,
}

/// `r` is a refusal with the message `msg`.
pub open spec fn refused<T>(r: Result<T, ErrorResponse>, msg: Seq<char>) -> bool {
    r is Err && r->Err_0.error@ == msg && !r->Err_0.success
}

/// `resp` answers the instruction with the given program, accounts (address,
/// is signer, is writable) and data.
pub open spec fn answers(
    resp: InstructionResponse,
    program: Seq<u8>,
    accounts: Seq<(Seq<u8>, bool, bool)>,
    data: Seq<u8>,
) -> bool {
    &&& resp.program_id@ == base58_of(program)
    &&& address_of(resp.program_id@) == Some(program)
    &&& resp.instruction_data@ == base64_of(data)
    &&& base64_decoded(resp.instruction_data@) == Some(data)
    &&& resp.accounts@.len() == accounts.len()
    &&& forall|i: int|
        0 <= i < accounts.len() ==> {
            &&& #[trigger] resp.accounts@[i].pubkey@ == base58_of(accounts[i].0)
            &&& address_of(resp.accounts@[i].pubkey@) == Some(accounts[i].0)
            &&& resp.accounts@[i].is_signer == accounts[i].1
            &&& resp.accounts@[i].is_writable == accounts[i].2
        }
}

/// The answer to a request whose body is not the expected JSON.
pub fn malformed_body(parser_message: &str) -> (r: ErrorResponse)
    ensures
        !r.success,
        r.error@ == "Failed to deserialize request body: "@ + parser_message@,
{
    let mut error = "Failed to deserialize request body: ".to_owned();
    error.append(parser_message);
    ErrorResponse::new(error)
}

/// Encodes an instruction for an answer; where `uniform` holds, every account
/// is answered as a writable non-signer.
fn describe(ix: &Instruction, uniform: bool) -> (r: InstructionResponse)
    ensures
        answers(
            r,
            ix.program_id.bytes@,
            if uniform {
                ix.accounts_spec().map_values(|a: (Seq<u8>, bool, bool)| (a.0, false, true))
            } else {
                ix.accounts_spec()
            },
            ix.data@,
        ),
{
    let mut accounts: Vec<AccountResponse> = Vec::new();
    let mut i: usize = 0;
    while i < ix.accounts.len()
        invariant
            i <= ix.accounts@.len(),
            accounts@.len() == i,
            forall|j: int|
                0 <= j < i ==> {
                    &&& (#[trigger] accounts@[j]).pubkey@ == base58_of(ix.accounts@[j].pubkey.bytes@)
                    &&& address_of(accounts@[j].pubkey@) == Some(ix.accounts@[j].pubkey.bytes@)
                    &&& accounts@[j].is_signer == (!uniform && ix.accounts@[j].is_signer)
                    &&& accounts@[j].is_writable == (uniform || ix.accounts@[j].is_writable)
                },
        decreases ix.accounts@.len() - i,
    {
        let a = &ix.accounts[i];
        accounts.push(
            AccountResponse {
                pubkey: a.pubkey.format(),
                is_signer: !uniform && a.is_signer,
                is_writable: uniform || a.is_writable,
            },
        );
        i = i + 1;
    }
    InstructionResponse {
        program_id: ix.program_id.format(),
        accounts,
        instruction_data: encode_base64(ix.data.as_slice()),
    }
}

/// `r` answers the key pair `k`: its texts are those of `k` and of its
/// public half, and decode back to them.
pub open spec fn keypair_answer(r: KeypairResponse, k: Seq<u8>) -> bool {
    &&& keypair_bytes_valid(k)
    &&& k.len() == 64
    &&& r.secret@ == base58_of(k)
    &&& keypair_decode_spec(r.secret@) == Ok::<Seq<u8>, KeyError>(k)
    &&& r.pubkey@ == base58_of(k.subrange(32, 64))
    &&& address_of(r.pubkey@) == Some(k.subrange(32, 64))
}

/// `r` answers some key pair.
pub open spec fn fresh_keypair_answer(r: KeypairResponse) -> bool {
    exists|k: Seq<u8>| #[trigger] keypair_answer(r, k)
}

/// Answers a request for a fresh key pair.
pub fn generate_keypair() -> (r: KeypairResponse)
    ensures
        fresh_keypair_answer(r),
{
    let keypair = KeyPair::generate();
    let secret = keypair.encode();
    let pubkey = keypair.pubkey().format();
    let r = KeypairResponse { pubkey, secret };
    assert(keypair_answer(r, keypair@));
    r
}


/// Answers a request for an InitializeMint instruction: the mint, then the
/// mint authority (also the freeze authority) are parsed in that order.
pub fn create_initialize_mint_instruction(req: &InitializeMintInstruction) -> (r: Result<InstructionResponse, ErrorResponse>)
    ensures
        match (address_of(req.mint@), address_of(req.mint_authority@)) {
            (None, _) => refused(r, "Invalid mint pubkey"@),
            (Some(_), None) => refused(r, "Invalid mint authority pubkey"@),
            (Some(m), Some(a)) => r is Ok && answers(
                r->Ok_0,
                token_program_bytes(),
                seq![(m, false, true), (rent_sysvar_bytes(), false, false)],
                initialize_mint_data(a, a, req.decimals),
            ),
        },
{
    let mint = match Address::parse(req.mint.as_str()) {
        Ok(a) => a,
        Err(_) => return Err(ErrorResponse::new("Invalid mint pubkey".to_owned())),
    };
    let mint_authority = match Address::parse(req.mint_authority.as_str()) {
        Ok(a) => a,
        Err(_) => return Err(ErrorResponse::new("Invalid mint authority pubkey".to_owned())),
    };
    match initialize_mint(&mint, &mint_authority, req.decimals) {
        Ok(ix) => Ok(describe(&ix, false)),
        Err(_) => Err(ErrorResponse::new("Failed to create initialize_mint instruction".to_owned())),
    }
}

/// Answers a request for a MintTo instruction: the mint, the destination and
/// the authority are parsed in that order, and every account is answered as
/// a writable non-signer.
pub fn create_mint_to_instruction(req: &MintToInstruction) -> (r: Result<InstructionResponse, ErrorResponse>)
    ensures
        match (address_of(req.mint@), address_of(req.destination@), address_of(req.authority@)) {
            (None, _, _) => refused(r, "Invalid mint address"@),
            (Some(_), None, _) => refused(r, "Invalid destination address"@),
            (Some(_), Some(_), None) => refused(r, "Invalid authority address"@),
            (Some(m), Some(d), Some(a)) => r is Ok && answers(
                r->Ok_0,
                token_program_bytes(),
                seq![(m, false, true), (d, false, true), (a, false, true)],
                mint_to_data(req.amount),
            ),
        },
{
    let mint = match Address::parse(req.mint.as_str()) {
        Ok(a) => a,
        Err(_) => return Err(ErrorResponse::new("Invalid mint address".to_owned())),
    };
    let destination = match Address::parse(req.destination.as_str()) {
        Ok(a) => a,
        Err(_) => return Err(ErrorResponse::new("Invalid destination address".to_owned())),
    };
    let authority = match Address::parse(req.authority.as_str()) {
        Ok(a) => a,
        Err(_) => return Err(ErrorResponse::new("Invalid authority address".to_owned())),
    };
    match mint_to(&mint, &destination, &authority, req.amount) {
        Ok(ix) => {
            let r = describe(&ix, true);
            assert(ix.accounts_spec().map_values(|a: (Seq<u8>, bool, bool)| (a.0, false, true)) =~= seq![
                (mint.bytes@, false, true),
                (destination.bytes@, false, true),
                (authority.bytes@, false, true),
            ]);
            Ok(r)
        },
        Err(_) => Err(ErrorResponse::new("Failed to create mint_to instruction".to_owned())),
    }
}

/// Answers a request for a native transfer: a zero amount is refused before
/// any address is looked at; then the sender and the recipient are parsed.
pub fn create_sol_transfer_instruction(req: &SolTransferInstruction) -> (r: Result<SolTransferResponse, ErrorResponse>)
    ensures
        req.lamports == 0 ==> refused(r, "Lamports must be greater than 0"@),
        req.lamports > 0 ==> match (address_of(req.from@), address_of(req.to@)) {
            (None, _) => refused(r, "Invalid sender address"@),
            (Some(_), None) => refused(r, "Invalid recipient address"@),
            (Some(f), Some(t)) => {
                &&& r is Ok
                &&& r->Ok_0.program_id@ == base58_of(system_program_bytes())
                &&& r->Ok_0.accounts@.len() == 2
                &&& r->Ok_0.accounts@[0]@ == base58_of(f)
                &&& r->Ok_0.accounts@[1]@ == base58_of(t)
                &&& r->Ok_0.instruction_data@ == base64_of(system_transfer_data(req.lamports))
                &&& base64_decoded(r->Ok_0.instruction_data@) == Some(system_transfer_data(req.lamports))
            },
        },
{
    if req.lamports == 0 {
        return Err(ErrorResponse::new("Lamports must be greater than 0".to_owned()));
    }
    let from = match Address::parse(req.from.as_str()) {
        Ok(a) => a,
        Err(_) => return Err(ErrorResponse::new("Invalid sender address".to_owned())),
    };
    let to = match Address::parse(req.to.as_str()) {
        Ok(a) => a,
        Err(_) => return Err(ErrorResponse::new("Invalid recipient address".to_owned())),
    };
    match transfer_native(&from, &to, req.lamports) {
        Ok(ix) => {
            let mut accounts: Vec<String> = Vec::new();
            let mut i: usize = 0;
            while i < ix.accounts.len()
                invariant
                    i <= ix.accounts@.len(),
                    accounts@.len() == i,
                    forall|j: int| 0 <= j < i ==> (#[trigger] accounts@[j])@ == base58_of(ix.accounts@[j].pubkey.bytes@),
                decreases ix.accounts@.len() - i,
            {
                accounts.push(ix.accounts[i].pubkey.format());
                i = i + 1;
            }
            assert(ix.accounts_spec()[0] == (from.bytes@, true, true));
            assert(ix.accounts_spec()[1] == (to.bytes@, false, true));
            assert(ix.accounts@.len() == ix.accounts_spec().len());
            assert(ix.accounts@[0].pubkey.bytes@ == from.bytes@);
            assert(ix.accounts@[1].pubkey.bytes@ == to.bytes@);
            Ok(SolTransferResponse {
                program_id: ix.program_id.format(),
                accounts,
                instruction_data: encode_base64(ix.data.as_slice()),
            })
        },
        Err(_) => Err(ErrorResponse::new("Lamports must be greater than 0".to_owned())),
    }
}

/// Answers a request for a token Transfer instruction: the destination, the
/// mint and the owner are parsed in that order; the mint stands as the source
/// account.
pub fn create_transfer_instruction(req: &TransferInstruction) -> (r: Result<InstructionResponse, ErrorResponse>)
    ensures
        match (address_of(req.destination@), address_of(req.mint@), address_of(req.owner@)) {
            (None, _, _) => refused(r, "Invalid destination pubkey"@),
            (Some(_), None, _) => refused(r, "Invalid mint pubkey"@),
            (Some(_), Some(_), None) => refused(r, "Invalid owner pubkey"@),
            (Some(d), Some(m), Some(o)) => r is Ok && answers(
                r->Ok_0,
                token_program_bytes(),
                seq![(m, false, true), (d, false, true), (o, true, false)],
                token_transfer_data(req.amount),
            ),
        },
{
    let destination = match Address::parse(req.destination.as_str()) {
        Ok(a) => a,
        Err(_) => return Err(ErrorResponse::new("Invalid destination pubkey".to_owned())),
    };
    let mint = match Address::parse(req.mint.as_str()) {
        Ok(a) => a,
        Err(_) => return Err(ErrorResponse::new("Invalid mint pubkey".to_owned())),
    };
    let owner = match Address::parse(req.owner.as_str()) {
        Ok(a) => a,
        Err(_) => return Err(ErrorResponse::new("Invalid owner pubkey".to_owned())),
    };
    match transfer_token(&destination, &mint, &owner, req.amount) {
        Ok(ix) => Ok(describe(&ix, false)),
        Err(e) => {
            let mut error = "Failed to create transfer instruction: ".to_owned();
            error.append(e.message.as_str());
            Err(ErrorResponse::new(error))
        },
    }
}

/// What the signing handler answers for `message` and the key-pair text
/// `secret`: a refusal, or the base-58 signature of the message's UTF-8
/// bytes, which verifies under the answered public key.
pub open spec fn sign_answer(message: Seq<char>, secret: Seq<char>, r: Result<SignResponse, ErrorResponse>) -> bool {
    match keypair_decode_spec(secret) {
        Err(KeyError::InvalidEncoding) => refused(r, "Invalid base58 secret"@),
        Err(_) => refused(r, "Invalid keypair bytes"@),
        Ok(k) => {
            let m = encode_utf8(message);
            &&& r is Ok
            &&& r->Ok_0.signature@ == base58_of(signature_of(k, m))
            &&& signature_decode_spec(base58_decoded(r->Ok_0.signature@)) == Ok::<Seq<u8>, SignatureError>(signature_of(k, m))
            &&& r->Ok_0.public_key@ == base58_of(k.subrange(32, 64))
            &&& address_of(r->Ok_0.public_key@) == Some(k.subrange(32, 64))
            &&& r->Ok_0.message@ == message
            &&& signature_valid(k.subrange(32, 64), m, signature_of(k, m))
        },
    }
}

/// What the verifying handler makes of `message`, the base64 text
/// `signature` and the address text `pubkey`: the signature is decoded
/// first, then the pubkey is parsed; then whether the signature is valid.
pub open spec fn verify_outcome(message: Seq<char>, signature: Seq<char>, pubkey: Seq<char>) -> Result<bool, Seq<char>> {
    match signature_decode_spec(base64_decoded(signature)) {
        Err(_) => Err("Invalid signature"@),
        Ok(s) => match address_of(pubkey) {
            None => Err("Invalid pubkey"@),
            Some(p) => Ok(signature_valid(p, encode_utf8(message), s)),
        },
    }
}

/// Answers a request to sign a message: the base-58 secret is decoded, then
/// checked to be a key pair; the signature is of the message's UTF-8 bytes.
pub fn sign_message(req: &SignMessageRequest) -> (r: Result<SignResponse, ErrorResponse>)
    ensures
        sign_answer(req.message@, req.secret@, r),
{
    let keypair = match KeyPair::decode(req.secret.as_str()) {
        Ok(k) => k,
        Err(KeyError::InvalidEncoding) => return Err(ErrorResponse::new("Invalid base58 secret".to_owned())),
        Err(_) => return Err(ErrorResponse::new("Invalid keypair bytes".to_owned())),
    };
    let signature = keypair.sign(req.message.as_str().as_bytes());
    Ok(SignResponse {
        signature: signature.encode_base58(),
        public_key: keypair.pubkey().format(),
        message: req.message.clone(),
    })
}

/// Answers a request to verify a signature: the base64 signature is decoded,
/// then the pubkey is parsed; the signature is checked over the message's
/// UTF-8 bytes, and a mismatch is a `false` answer, not a refusal.
pub fn verify_signed_message(req: &VerifySignedMessage) -> (r: Result<VerifyResponse, ErrorResponse>)
    ensures
        match verify_outcome(req.message@, req.signature@, req.pubkey@) {
            Err(msg) => refused(r, msg),
            Ok(valid) => {
                &&& r is Ok
                &&& r->Ok_0.valid == valid
                &&& r->Ok_0.message@ == req.message@
                &&& r->Ok_0.pubkey@ == req.pubkey@
            },
        },
{
    let signature = match Signature::decode_base64(req.signature.as_str()) {
        Ok(s) => s,
        Err(_) => return Err(ErrorResponse::new("Invalid signature".to_owned())),
    };
    let pubkey = match Address::parse(req.pubkey.as_str()) {
        Ok(a) => a,
        Err(_) => return Err(ErrorResponse::new("Invalid pubkey".to_owned())),
    };
    let valid = signature.verify(&pubkey, req.message.as_str().as_bytes());
    Ok(VerifyResponse { valid, message: req.message.clone(), pubkey: req.pubkey.clone() })
}

/// The secret answered for a fresh key pair is accepted by the signing
/// handler, which answers the same public key.
pub proof fn lemma_fresh_secret_signs(fresh: KeypairResponse, message: Seq<char>, r: Result<SignResponse, ErrorResponse>)
    requires
        fresh_keypair_answer(fresh),
        sign_answer(message, fresh.secret@, r),
    ensures
        r is Ok,
        r->Ok_0.public_key@ == fresh.pubkey@,
{
    let k = choose|k: Seq<u8>| #[trigger] keypair_answer(fresh, k);
    assert(keypair_decode_spec(fresh.secret@) == Ok::<Seq<u8>, KeyError>(k));
}

/// A signature answered by the signing handler, carried from base-58 to
/// base64, is found valid by the verifying handler for the same message and
/// the answered public key.
pub proof fn lemma_signed_message_verifies(message: Seq<char>, secret: Seq<char>, signed: SignResponse, signature64: Seq<char>)
    requires
        sign_answer(message, secret, Ok(signed)),
        base64_decoded(signature64) == base58_decoded(signed.signature@),
    ensures
        verify_outcome(message, signature64, signed.public_key@) == Ok::<bool, Seq<char>>(true),
{
}

} // verus!
