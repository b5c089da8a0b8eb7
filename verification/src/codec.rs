use vstd::prelude::*;
use base64::Engine;
use crate::errors::BundlerError;
use crate::errors::BundlerResult;
use crate::types::AccountMeta;
use crate::types::Instruction;
use crate::types::InstructionData;
use crate::types::Pubkey;

verus! {

/// The base64 (standard alphabet, padded) encoding of `data`.
pub uninterp spec fn b64_of(data: Seq<u8>) -> Seq<char>;

/// What base64 decoding of `text` yields: the encoded bytes, or nothing
/// when `text` is not valid base64.
pub uninterp spec fn b64_decode_of(text: Seq<char>) -> Option<Seq<u8>>;

/// The base58 encoding of `data`.
pub uninterp spec fn b58_of(data: Seq<u8>) -> Seq<char>;

/// What base58 decoding of `text` yields: the encoded bytes, or nothing
/// when `text` is not valid base58.
pub uninterp spec fn b58_decode_of(text: Seq<char>) -> Option<Seq<u8>>;

/// What parsing `text` as a JSON array of bytes yields, or nothing when
/// `text` is not such an array.
pub uninterp spec fn json_byte_array_of(text: Seq<char>) -> Option<Seq<u8>>;

/// Relies on base64's standard engine: `encode` produces the padded
/// standard-alphabet encoding, and `decode` of that text gives the input
/// back.
#[verifier::external_body]
pub fn base64_encode(data: &Vec<u8>) -> (r: String)
    ensures
        r@ == b64_of(data@),
        b64_decode_of(r@) == Some(data@),
{
    base64::engine::general_purpose::STANDARD.encode(data)
}

/// Relies on base64's standard engine: `decode` inverts `encode` and
/// rejects text that is not valid base64.
#[verifier::external_body]
pub fn base64_decode(text: &str) -> (r: Option<Vec<u8>>)
    ensures
        r is Some <==> b64_decode_of(text@) is Some,
        r matches Some(v) ==> b64_decode_of(text@) == Some(v@),
{
    match base64::engine::general_purpose::STANDARD.decode(text) {
        Ok(v) => Some(v),
        Err(_) => None,
    }
}

/// Relies on bs58: `encode(..).into_string()` produces the base58 form,
/// and decoding that text gives the input back.
#[verifier::external_body]
pub fn base58_encode(data: &Vec<u8>) -> (r: String)
    ensures
        r@ == b58_of(data@),
        b58_decode_of(r@) == Some(data@),
{
    bs58::encode(data).into_string()
}

/// Relies on bs58: `decode(..).into_vec()` inverts the encoding and rejects
/// text that is not valid base58.
#[verifier::external_body]
pub fn base58_decode(text: &str) -> (r: Option<Vec<u8>>)
    ensures
        r is Some <==> b58_decode_of(text@) is Some,
        r matches Some(v) ==> b58_decode_of(text@) == Some(v@),
{
    match bs58::decode(text).into_vec() {
        Ok(v) => Some(v),
        Err(_) => None,
    }
}

/// Relies on serde_json's `from_str::<Vec<u8>>`: parses a JSON array of
/// integers in 0..=255, and rejects everything else.
#[verifier::external_body]
pub fn parse_json_byte_array(text: &str) -> (r: Option<Vec<u8>>)
    ensures
        r is Some <==> json_byte_array_of(text@) is Some,
        r matches Some(v) ==> json_byte_array_of(text@) == Some(v@),
{
    match serde_json::from_str::<Vec<u8>>(text) {
        Ok(v) => Some(v),
        Err(_) => None,
    }
}

/// Whether two account references name the same account with the same
/// signer and writability flags.
pub open spec fn spec_meta_eq(a: AccountMeta, b: AccountMeta) -> bool {
    &&& a.pubkey.bytes@ == b.pubkey.bytes@
    &&& a.is_signer == b.is_signer
    &&& a.is_writable == b.is_writable
}

/// Copies one account reference.
pub fn copy_meta(m: &AccountMeta) -> (r: AccountMeta)
    ensures
        spec_meta_eq(r, *m),
{
    AccountMeta {
        pubkey: Pubkey { bytes: m.pubkey.bytes.clone() },
        is_signer: m.is_signer,
        is_writable: m.is_writable,
    }
}

/// Copies a list of account references.
pub fn copy_metas(ms: &Vec<AccountMeta>) -> (r: Vec<AccountMeta>)
    ensures
        r@.len() == ms@.len(),
        forall|i: int| 0 <= i < ms@.len() ==> spec_meta_eq(#[trigger] r@[i], ms@[i]),
{
    let mut out: Vec<AccountMeta> = Vec::new();
    let n = ms.len();
    let mut i: usize = 0;
    while i < n
        invariant
            n == ms@.len(),
            i <= n,
            out@.len() == i,
            forall|j: int| 0 <= j < i ==> spec_meta_eq(#[trigger] out@[j], ms@[j]),
        decreases n - i,
    {
        out.push(copy_meta(&ms[i]));
        i = i + 1;
    }
    out
}

/// Decodes a client instruction: the base64 payload becomes raw bytes, the
/// program and account references carry over unchanged. Rejects exactly the
/// payloads that are not valid base64, with an `InvalidInput` error.
pub fn instruction_from_data(d: &InstructionData) -> (r: BundlerResult<Instruction>)
    ensures
        r is Ok <==> b64_decode_of(d.data_b64@) is Some,
        r matches Ok(ix) ==> {
            &&& b64_decode_of(d.data_b64@) == Some(ix.data@)
            &&& ix.program_id.bytes@ == d.program_id.bytes@
            &&& ix.accounts@.len() == d.keys@.len()
            &&& forall|i: int|
                0 <= i < d.keys@.len() ==> spec_meta_eq(#[trigger] ix.accounts@[i], d.keys@[i])
        },
        r matches Err(e) ==> e is InvalidInput,
{
    let data = match base64_decode(d.data_b64.as_str()) {
        Some(v) => v,
        None => {
            return Err(BundlerError::InvalidInput("instruction data is not valid base64".to_owned()));
        },
    };
    Ok(Instruction {
        program_id: Pubkey { bytes: d.program_id.bytes.clone() },
        accounts: copy_metas(&d.keys),
        data,
    })
}

/// Encodes an instruction for transport: the payload becomes base64 text
/// that decodes back to exactly the original bytes; program and account
/// references carry over unchanged.
pub fn instruction_to_data(ix: &Instruction) -> (r: InstructionData)
    ensures
        r.data_b64@ == b64_of(ix.data@),
        b64_decode_of(r.data_b64@) == Some(ix.data@),
        r.program_id.bytes@ == ix.program_id.bytes@,
        r.keys@.len() == ix.accounts@.len(),
        forall|i: int|
            0 <= i < ix.accounts@.len() ==> spec_meta_eq(#[trigger] r.keys@[i], ix.accounts@[i]),
{
    InstructionData {
        program_id: Pubkey { bytes: ix.program_id.bytes.clone() },
        keys: copy_metas(&ix.accounts),
        data_b64: base64_encode(&ix.data),
    }
}

} // verus!
