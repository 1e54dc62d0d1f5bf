//! The calls into outside crates, each behind a contract stated from the
//! crate's documentation.
use vstd::prelude::*;

verus! {

#[verifier::external_type_specification]
#[verifier::external_body]
pub struct ExJsonValue(serde_json::Value);

#[verifier::external_type_specification]
#[verifier::external_body]
pub struct ExJsonError(serde_json::Error);

#[verifier::external_type_specification]
#[verifier::external_body]
pub struct ExTransactionRequest(alloy::rpc::types::TransactionRequest);

#[verifier::external_type_specification]
#[verifier::external_body]
pub struct ExVersionedTransaction(solana_sdk::transaction::VersionedTransaction);

#[verifier::external_type_specification]
#[verifier::external_body]
pub struct ExHash(solana_sdk::hash::Hash);

#[verifier::external_type_specification]
#[verifier::external_body]
pub struct ExBincodeErrorKind(bincode::ErrorKind);

/// Lowercase hexadecimal digit for `d < 16`.
pub open spec fn hex_digit(d: nat) -> char {
    if d < 10 {
        crate::chain::digit_char(d)
    } else if d == 10 {
        'a'
    } else if d == 11 {
        'b'
    } else if d == 12 {
        'c'
    } else if d == 13 {
        'd'
    } else if d == 14 {
        'e'
    } else {
        'f'
    }
}

/// Two lowercase hexadecimal digits per byte, high nibble first.
pub open spec fn lower_hex(b: Seq<u8>) -> Seq<char>
    decreases b.len(),
{
    if b.len() == 0 {
        seq![]
    } else {
        lower_hex(b.drop_last()) + seq![
            hex_digit(b.last() as nat / 16),
            hex_digit(b.last() as nat % 16),
        ]
    }
}

/// The standard base64 alphabet encoding, with padding, of a byte string.
pub uninterp spec fn base64_of(b: Seq<u8>) -> Seq<char>;

/// The `chain_id` member of a JSON value, when it is an object holding a
/// non-negative integer that fits in 64 bits; a function of the value alone.
pub uninterp spec fn embedded_chain_id_of(v: serde_json::Value) -> Option<u64>;

/// The `chain_id` field of an alloy transaction request.
pub uninterp spec fn request_chain_id_of(tx: alloy::rpc::types::TransactionRequest) -> Option<u64>;

/// The serde encoding of a transaction request as a JSON value; `None` where
/// the encoding fails. A function of the request alone.
pub uninterp spec fn request_json_of(tx: alloy::rpc::types::TransactionRequest) -> Option<
    serde_json::Value,
>;

/// The transaction with its message's recent blockhash replaced by `h`, and
/// everything else kept.
pub uninterp spec fn with_blockhash(
    tx: solana_sdk::transaction::VersionedTransaction,
    h: solana_sdk::hash::Hash,
) -> solana_sdk::transaction::VersionedTransaction;

/// The recent blockhash held by the transaction's message.
pub uninterp spec fn recent_blockhash_of(tx: solana_sdk::transaction::VersionedTransaction) -> solana_sdk::hash::Hash;

/// The binary wire form of a transaction; `None` where it cannot be
/// serialized. A function of the transaction alone.
pub uninterp spec fn wire_bytes_of(tx: solana_sdk::transaction::VersionedTransaction) -> Option<
    Seq<u8>,
>;

/// Relies on `serde_json::Value`'s indexing by key, which gives `Null` for a
/// missing key, and on `Value::as_u64`.
#[verifier::external_body]
pub(crate) fn embedded_chain_id(tx: &serde_json::Value) -> (r: Option<u64>)
    ensures
        r == embedded_chain_id_of(*tx),
{
    tx["chain_id"].as_u64()
}

/// Reads the public `chain_id` field of an alloy transaction request.
#[verifier::external_body]
pub(crate) fn request_chain_id(tx: &alloy::rpc::types::TransactionRequest) -> (r: Option<u64>)
    ensures
        r == request_chain_id_of(*tx),
{
    tx.chain_id
}

/// Relies on `serde_json::to_value` for the request's serde encoding.
#[verifier::external_body]
pub(crate) fn request_to_json(tx: &alloy::rpc::types::TransactionRequest) -> (r: Result<
    serde_json::Value,
    serde_json::Error,
>)
    ensures
        r matches Ok(v) ==> request_json_of(*tx) == Some(v),
        r is Err ==> request_json_of(*tx) is None,
{
    serde_json::to_value(tx)
}

/// Relies on `VersionedMessage::set_recent_blockhash`, which assigns the
/// message's `recent_blockhash` field and nothing else: putting the earlier
/// blockhash back gives the transaction as it was.
#[verifier::external_body]
pub(crate) fn set_recent_blockhash(
    tx: &mut solana_sdk::transaction::VersionedTransaction,
    blockhash: solana_sdk::hash::Hash,
)
    ensures
        *final(tx) == with_blockhash(*old(tx), blockhash),
        recent_blockhash_of(*final(tx)) == blockhash,
        with_blockhash(*final(tx), recent_blockhash_of(*old(tx))) == *old(tx),
{
    tx.message.set_recent_blockhash(blockhash)
}

/// Relies on `bincode::serialize` for the transaction's wire encoding.
#[verifier::external_body]
pub(crate) fn serialize_transaction(tx: &solana_sdk::transaction::VersionedTransaction) -> (r:
    Result<Vec<u8>, Box<bincode::ErrorKind>>)
    ensures
        r matches Ok(b) ==> wire_bytes_of(*tx) == Some(b@),
        r is Err ==> wire_bytes_of(*tx) is None,
{
    bincode::serialize(tx)
}

/// Relies on base64's `STANDARD` engine `encode`: the padded standard
/// encoding, which depends on the bytes alone and is empty for no bytes.
#[verifier::external_body]
pub(crate) fn base64_encode(bytes: &Vec<u8>) -> (r: String)
    ensures
        r@ == base64_of(bytes@),
        bytes@.len() == 0 ==> r@.len() == 0,
{
    base64::Engine::encode(&base64::engine::general_purpose::STANDARD, bytes)
}

/// Relies on `alloy::hex::encode`: two lowercase digits per byte, no prefix.
#[verifier::external_body]
pub(crate) fn hex_encode(bytes: &[u8; 32]) -> (r: String)
    ensures
        r@ == lower_hex(bytes@),
{
    alloy::hex::encode(bytes)
}

} // verus!
