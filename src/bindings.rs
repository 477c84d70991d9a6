//! The calls into alloy and url that the library makes, with what it relies on
//! of each.
use alloy::eips::eip2718::Encodable2718;
use alloy::signers::local::PrivateKeySigner;
use alloy::signers::SignerSync;
use crate::text::hex_text;
use vstd::prelude::*;

verus! {

#[verifier::external_type_specification]
#[verifier::external_body]
pub struct ExTxEnvelope(alloy::consensus::TxEnvelope);


/// The Keccak-256 digest of a byte string.
pub uninterp spec fn keccak256_of(data: Seq<u8>) -> Seq<u8>;

/// The EIP-55 mixed-case checksum text of a 20-byte address, `0x` included.
pub uninterp spec fn checksum_address_of(address: Seq<u8>) -> Seq<char>;

/// The address of the secp256k1 key with these secret bytes.
pub uninterp spec fn key_address_of(secret: Seq<u8>) -> Seq<u8>;

/// The deterministic ECDSA signature, `r || s || v`, of the key with these
/// secret bytes over a 32-byte digest.
pub uninterp spec fn key_signature_of(secret: Seq<u8>, digest: Seq<u8>) -> Seq<u8>;

/// The secret bytes are a valid secp256k1 key: a nonzero scalar below the
/// group order.
pub uninterp spec fn key_is_valid(secret: Seq<u8>) -> bool;

/// Signing the 32-byte digest with the key of these secret bytes succeeds.
pub uninterp spec fn key_signs(secret: Seq<u8>, digest: Seq<u8>) -> bool;

/// The URL that `reference` resolves to against `base`.
pub uninterp spec fn url_join_of(base: Seq<char>, reference: Seq<char>) -> Seq<char>;

/// `base` parses as a URL and `reference` resolves against it.
pub uninterp spec fn url_joins(base: Seq<char>, reference: Seq<char>) -> bool;

/// The envelope's 32-byte transaction hash.
pub uninterp spec fn tx_hash_of(tx: alloy::consensus::TxEnvelope) -> [u8; 32];

/// The envelope's network encoding.
pub uninterp spec fn network_bytes_of(tx: alloy::consensus::TxEnvelope) -> Seq<u8>;

/// Relies on alloy_primitives::keccak256: the Keccak-256 digest of the bytes,
/// which depends on the bytes alone.
#[verifier::external_body]
pub(crate) fn keccak256(data: &Vec<u8>) -> (r: [u8; 32])
    ensures
        r@ == keccak256_of(data@),
{
    alloy::primitives::keccak256(data.as_slice()).0
}

/// Relies on alloy::hex::encode (const_hex): two lowercase hexadecimal digits
/// per byte, in order, with no prefix.
#[verifier::external_body]
pub(crate) fn hex_encode(data: &[u8]) -> (r: String)
    ensures
        r@ == hex_text(data@),
{
    alloy::hex::encode(data)
}

/// Relies on Address::to_checksum with no chain id: the EIP-55 text of the
/// address, `0x` and forty hexadecimal digits.
#[verifier::external_body]
pub(crate) fn address_checksum(address: &[u8; 20]) -> (r: String)
    ensures
        r@ == checksum_address_of(address@),
        r@.len() == 42,
{
    alloy::primitives::Address::from(*address).to_checksum(None)
}

/// Relies on LocalSigner::from_bytes and LocalSigner::address: the address of
/// the secp256k1 key with these secret bytes; `None` where the bytes are no
/// valid key.
#[verifier::external_body]
pub(crate) fn key_address(secret: &[u8; 32]) -> (r: Option<[u8; 20]>)
    ensures
        r is Some <==> key_is_valid(secret@),
        r matches Some(a) ==> a@ == key_address_of(secret@),
{
    match PrivateKeySigner::from_bytes(&alloy::primitives::B256::from(*secret)) {
        Ok(signer) => Some(signer.address().0 .0),
        Err(_) => None,
    }
}

/// Relies on LocalSigner::from_bytes and SignerSync::sign_hash_sync (which the
/// signer's async `sign_hash` also calls): the RFC 6979 deterministic ECDSA
/// signature, as `r || s || v`, over the 32 bytes as given, with no prefix and
/// no further hashing; `None` where the bytes are no valid key or signing fails.
#[verifier::external_body]
pub(crate) fn key_sign_digest(secret: &[u8; 32], digest: &[u8; 32]) -> (r: Option<[u8; 65]>)
    ensures
        r is Some <==> (key_is_valid(secret@) && key_signs(secret@, digest@)),
        r matches Some(sig) ==> sig@ == key_signature_of(secret@, digest@),
{
    match PrivateKeySigner::from_bytes(&alloy::primitives::B256::from(*secret)) {
        Ok(signer) => match signer.sign_hash_sync(&alloy::primitives::B256::from(*digest)) {
            Ok(signature) => Some(signature.as_bytes()),
            Err(_) => None,
        },
        Err(_) => None,
    }
}

/// Relies on TxEnvelope::tx_hash: the transaction's 32-byte hash.
#[verifier::external_body]
pub(crate) fn envelope_hash(tx: &alloy::consensus::TxEnvelope) -> (r: [u8; 32])
    ensures
        r == tx_hash_of(*tx),
{
    tx.tx_hash().0
}

/// Relies on Encodable2718::network_encode: the envelope's network encoding,
/// which depends on the envelope alone and holds at least its type byte or
/// its RLP list header.
#[verifier::external_body]
pub(crate) fn network_encoding(tx: &alloy::consensus::TxEnvelope) -> (r: Vec<u8>)
    ensures
        r@ == network_bytes_of(*tx),
        r@.len() > 0,
{
    let mut out: Vec<u8> = Vec::new();
    tx.network_encode(&mut out);
    out
}

/// Relies on url::Url::parse of `base` and Url::join of `reference` onto it:
/// the resolved URL's text, as `Url::as_str` gives it; `None` where either fails.
#[verifier::external_body]
pub(crate) fn join_url(base: &str, reference: &str) -> (r: Option<String>)
    ensures
        r is Some <==> url_joins(base@, reference@),
        r matches Some(u) ==> u@ == url_join_of(base@, reference@),
{
    let base = reqwest::Url::parse(base).ok()?;
    let joined = base.join(reference).ok()?;
    Some(joined.as_str().to_string())
}

} // verus!
