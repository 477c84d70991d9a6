//! The request bodies of the three relay protocols, and the choice among them.
use crate::auth::{sign_request, signed_token_text, signs_request, LocalKey};
use crate::bindings::{
    envelope_hash, hex_encode, join_url, network_bytes_of, network_encoding, tx_hash_of,
    url_join_of, url_joins,
};
use crate::error::PreconfError;
use crate::text::{decimal_text, hex_text, push_decimal};
use vstd::prelude::*;

verus! {

/// The relay protocol that a request is for.
#[derive(Clone, Copy, Debug, PartialEq, Eq, Structural)]
pub enum Protocol {
    Bolt,
    Ethgas,
    Luban,
}

/// A request ready to be posted as `application/json`: where it goes, its body,
/// and the value of the signature header where the protocol has one.
#[derive(Debug)]
pub struct PreconfRequest {
    pub url: String,
    pub signature: Option<String>,
    pub body: String,
}

/// The fixed idempotency token that Ethgas requests carry.
pub const REPLACEMENT_UUID: &'static str = "01ab2371-84d6-459e-95e7-5edad485f282";

/// The path of Ethgas's submission endpoint, joined onto the relay's URL.
pub const ETHGAS_SEND_PATH: &'static str = "/api/inclusion_preconf/send";

/// The header that carries the token for Bolt and Luban.
pub const SIGNATURE_HEADER: &'static str = "x-bolt-signature";

pub const BOLT_METHOD: &'static str = "bolt_requestInclusion";

pub const LUBAN_METHOD: &'static str = "luban_requestInclusion";

/// The JSON-RPC method of the protocols that use JSON-RPC.
pub open spec fn method_of(protocol: Protocol) -> Seq<char> {
    match protocol {
        Protocol::Luban => LUBAN_METHOD@,
        _ => BOLT_METHOD@,
    }
}

/// A character that JSON writes as itself inside a string: no quote, no
/// backslash, no control character.
pub open spec fn is_json_plain_char(c: char) -> bool {
    c != '"' && c != '\\' && ' ' <= c
}

/// Text that can stand between a JSON string's quotes as it is.
pub open spec fn is_json_plain(s: Seq<char>) -> bool
    decreases s.len(),
{
    s.len() == 0 || (is_json_plain_char(s.last()) && is_json_plain(s.drop_last()))
}

/// A JSON-RPC request up to its method name.
pub open spec fn rpc_head() -> Seq<char> {
    "{\"id\":\"1\",\"jsonrpc\":\"2.0\",\"method\":\""@
}

/// A JSON-RPC request from after its method name, with one parameter.
pub open spec fn rpc_tail(params: Seq<char>) -> Seq<char> {
    "\",\"params\":["@ + params + "]}"@
}

/// `{"id":"1","jsonrpc":"2.0","method":"<method>","params":[<params>]}`; the
/// method is written as given.
pub open spec fn rpc_request_text(method: Seq<char>, params: Seq<char>) -> Seq<char> {
    rpc_head() + method + rpc_tail(params)
}

/// `{"slot":<slot>,"txs":["0x<raw hex>"]}`.
pub open spec fn inclusion_params_text(slot: u64, raw: Seq<u8>) -> Seq<char> {
    "{\"slot\":"@ + decimal_text(slot as nat) + ",\"txs\":[\"0x"@ + hex_text(raw) + "\"]}"@
}

/// `{"slotNumber":<slot>,"replacementUuid":"<uuid>","trxs":[{"tx":"0x<raw hex>","canRevert":false}]}`.
pub open spec fn ethgas_body_text(slot: u64, uuid: Seq<char>, raw: Seq<u8>) -> Seq<char> {
    "{\"slotNumber\":"@ + decimal_text(slot as nat) + ",\"replacementUuid\":\""@ + uuid
        + "\",\"trxs\":[{\"tx\":\"0x"@ + hex_text(raw) + "\",\"canRevert\":false}]}"@
}

/// The body of a request of the protocol for the slot and raw transaction.
pub open spec fn request_body_text(protocol: Protocol, slot: u64, raw: Seq<u8>) -> Seq<char> {
    match protocol {
        Protocol::Ethgas => ethgas_body_text(slot, REPLACEMENT_UUID@, raw),
        _ => rpc_request_text(method_of(protocol), inclusion_params_text(slot, raw)),
    }
}

/// A request of the protocol comes back: for Ethgas where the send path joins
/// onto the relay URL, for the others where the key signs the digest.
pub open spec fn request_succeeds(
    protocol: Protocol,
    slot: u64,
    hash: [u8; 32],
    url: Seq<char>,
    secret: Seq<u8>,
) -> bool {
    match protocol {
        Protocol::Ethgas => url_joins(url, ETHGAS_SEND_PATH@),
        _ => signs_request(secret, seq![hash], slot),
    }
}

/// The request of the protocol for the slot, the transaction's hash and raw
/// bytes, to the relay at `url`, signed with the key's secret bytes.
pub open spec fn is_request_for(
    r: PreconfRequest,
    protocol: Protocol,
    slot: u64,
    hash: [u8; 32],
    raw: Seq<u8>,
    url: Seq<char>,
    secret: Seq<u8>,
) -> bool {
    &&& r.body@ == request_body_text(protocol, slot, raw)
    &&& match protocol {
        Protocol::Ethgas => {
            &&& r.url@ == url_join_of(url, ETHGAS_SEND_PATH@)
            &&& r.signature is None
        },
        _ => {
            &&& r.url@ == url
            &&& r.signature matches Some(t) && t@ == signed_token_text(secret, seq![hash], slot)
        },
    }
}

/// The slot after the head slot; there is none after the largest.
pub fn target_slot(head_slot: u64) -> (r: Result<u64, PreconfError>)
    ensures
        head_slot < u64::MAX ==> r == Ok::<u64, PreconfError>((head_slot + 1) as u64),
        head_slot == u64::MAX ==> r == Err::<u64, PreconfError>(PreconfError::SlotOverflow),
{
    if head_slot == u64::MAX {
        Err(PreconfError::SlotOverflow)
    } else {
        Ok(head_slot + 1)
    }
}

/// Both JSON-RPC method names need no escaping.
proof fn lemma_methods_are_plain()
    ensures
        is_json_plain(BOLT_METHOD@),
        is_json_plain(LUBAN_METHOD@),
{
    reveal_strlit("bolt_requestInclusion");
    reveal_strlit("luban_requestInclusion");
    reveal_with_fuel(is_json_plain, 23);
}

/// A JSON-RPC request of the method with the one parameter, given as JSON text.
/// The method name is written as it is, so it holds nothing that JSON escapes.
pub fn prepare_rpc_request(method: &str, params: &str) -> (r: String)
    requires
        is_json_plain(method@),
    ensures
        r@ == rpc_request_text(method@, params@),
{
    let mut r = String::from_str("{\"id\":\"1\",\"jsonrpc\":\"2.0\",\"method\":\"");
    r.append(method);
    r.append("\",\"params\":[");
    r.append(params);
    r.append("]}");
    assert(r@ =~= rpc_request_text(method@, params@));
    r
}

/// The parameter of an inclusion request: the slot and the one raw transaction.
pub fn inclusion_params(target_slot: u64, raw_tx: &Vec<u8>) -> (r: String)
    ensures
        r@ == inclusion_params_text(target_slot, raw_tx@),
{
    let mut r = String::from_str("{\"slot\":");
    push_decimal(&mut r, target_slot);
    r.append(",\"txs\":[\"0x");
    let hex = hex_encode(raw_tx.as_slice());
    r.append(hex.as_str());
    r.append("\"]}");
    assert(r@ =~= inclusion_params_text(target_slot, raw_tx@));
    r
}

/// The body of an Ethgas request: the slot, the idempotency token, and the one
/// raw transaction, which may not revert.
pub fn ethgas_body(target_slot: u64, replacement_uuid: &str, raw_tx: &Vec<u8>) -> (r: String)
    ensures
        r@ == ethgas_body_text(target_slot, replacement_uuid@, raw_tx@),
{
    let mut r = String::from_str("{\"slotNumber\":");
    push_decimal(&mut r, target_slot);
    r.append(",\"replacementUuid\":\"");
    r.append(replacement_uuid);
    r.append("\",\"trxs\":[{\"tx\":\"0x");
    let hex = hex_encode(raw_tx.as_slice());
    r.append(hex.as_str());
    r.append("\",\"canRevert\":false}]}");
    assert(r@ =~= ethgas_body_text(target_slot, replacement_uuid@, raw_tx@));
    r
}

/// A signed JSON-RPC inclusion request of the method, posted to `url` as it is.
pub fn signed_inclusion_request(
    method: &str,
    target_slot: u64,
    tx_hash: [u8; 32],
    raw_tx: &Vec<u8>,
    url: &str,
    wallet: &LocalKey,
) -> (r: Result<PreconfRequest, PreconfError>)
    requires
        is_json_plain(method@),
    ensures
        r is Ok <==> signs_request(wallet.secret@, seq![tx_hash], target_slot),
        r matches Ok(req) ==> {
            &&& req.body@ == rpc_request_text(method@, inclusion_params_text(target_slot, raw_tx@))
            &&& req.url@ == url@
            &&& req.signature matches Some(t) && t@ == signed_token_text(
                wallet.secret@,
                seq![tx_hash],
                target_slot,
            )
        },
        r matches Err(e) ==> e == PreconfError::Signing,
{
    let params = inclusion_params(target_slot, raw_tx);
    let body = prepare_rpc_request(method, params.as_str());
    let hashes: Vec<[u8; 32]> = vec![tx_hash];
    assert(hashes@ =~= seq![tx_hash]);
    let signature = match sign_request(&hashes, target_slot, wallet) {
        Ok(t) => t,
        Err(e) => return Err(e),
    };
    Ok(PreconfRequest { url: String::from_str(url), signature: Some(signature), body })
}

/// An Ethgas request: unsigned, posted to the send path joined onto `base_url`.
pub fn ethgas_request(target_slot: u64, raw_tx: &Vec<u8>, base_url: &str) -> (r: Result<
    PreconfRequest,
    PreconfError,
>)
    ensures
        r is Ok <==> url_joins(base_url@, ETHGAS_SEND_PATH@),
        r matches Ok(req) ==> {
            &&& req.body@ == ethgas_body_text(target_slot, REPLACEMENT_UUID@, raw_tx@)
            &&& req.url@ == url_join_of(base_url@, ETHGAS_SEND_PATH@)
            &&& req.signature is None
        },
        r matches Err(e) ==> e == PreconfError::InvalidUrl,
{
    let url = match join_url(base_url, ETHGAS_SEND_PATH) {
        Some(u) => u,
        None => return Err(PreconfError::InvalidUrl),
    };
    let body = ethgas_body(target_slot, REPLACEMENT_UUID, raw_tx);
    Ok(PreconfRequest { url, signature: None, body })
}

/// The request of the protocol for the slot after `head_slot`, for the
/// transaction with this hash and these raw bytes.
pub fn prepare_request_for(
    protocol: Protocol,
    head_slot: u64,
    tx_hash: [u8; 32],
    raw_tx: &Vec<u8>,
    url: &str,
    wallet: &LocalKey,
) -> (r: Result<PreconfRequest, PreconfError>)
    ensures
        head_slot == u64::MAX ==> r == Err::<PreconfRequest, PreconfError>(
            PreconfError::SlotOverflow,
        ),
        head_slot < u64::MAX ==> (r is Ok <==> request_succeeds(
            protocol,
            (head_slot + 1) as u64,
            tx_hash,
            url@,
            wallet.secret@,
        )),
        r matches Ok(req) ==> is_request_for(
            req,
            protocol,
            (head_slot + 1) as u64,
            tx_hash,
            raw_tx@,
            url@,
            wallet.secret@,
        ),
        r matches Err(e) ==> match protocol {
            Protocol::Ethgas => e == PreconfError::InvalidUrl || e == PreconfError::SlotOverflow,
            _ => e == PreconfError::Signing || e == PreconfError::SlotOverflow,
        },
{
    let slot = match target_slot(head_slot) {
        Ok(s) => s,
        Err(e) => return Err(e),
    };
    proof {
        lemma_methods_are_plain();
    }
    match protocol {
        Protocol::Bolt => signed_inclusion_request(BOLT_METHOD, slot, tx_hash, raw_tx, url, wallet),
        Protocol::Ethgas => ethgas_request(slot, raw_tx, url),
        Protocol::Luban => signed_inclusion_request(
            LUBAN_METHOD,
            slot,
            tx_hash,
            raw_tx,
            url,
            wallet,
        ),
    }
}

/// The envelope's network encoding, the bytes that requests carry.
pub fn envelope_to_raw_bytes(tx: &alloy::consensus::TxEnvelope) -> (r: Vec<u8>)
    ensures
        r@ == network_bytes_of(*tx),
        r@.len() > 0,
{
    network_encoding(tx)
}

/// The request of the protocol for the slot after `head_slot`, for the envelope.
pub fn prepare_request(
    protocol: Protocol,
    head_slot: u64,
    tx: &alloy::consensus::TxEnvelope,
    url: &str,
    wallet: &LocalKey,
) -> (r: Result<PreconfRequest, PreconfError>)
    ensures
        head_slot == u64::MAX ==> r == Err::<PreconfRequest, PreconfError>(
            PreconfError::SlotOverflow,
        ),
        head_slot < u64::MAX ==> (r is Ok <==> request_succeeds(
            protocol,
            (head_slot + 1) as u64,
            tx_hash_of(*tx),
            url@,
            wallet.secret@,
        )),
        r matches Ok(req) ==> is_request_for(
            req,
            protocol,
            (head_slot + 1) as u64,
            tx_hash_of(*tx),
            network_bytes_of(*tx),
            url@,
            wallet.secret@,
        ),
{
    let hash = envelope_hash(tx);
    let raw = envelope_to_raw_bytes(tx);
    prepare_request_for(protocol, head_slot, hash, &raw, url, wallet)
}

/// Bolt and Luban bodies for the same slot and transaction agree but for the
/// method name: both are the same JSON-RPC head, the method, and the same tail.
pub proof fn lemma_bolt_luban_differ_only_in_method(slot: u64, raw: Seq<u8>)
    ensures
        request_body_text(Protocol::Bolt, slot, raw) == rpc_head() + BOLT_METHOD@ + rpc_tail(
            inclusion_params_text(slot, raw),
        ),
        request_body_text(Protocol::Luban, slot, raw) == rpc_head() + LUBAN_METHOD@ + rpc_tail(
            inclusion_params_text(slot, raw),
        ),
{
}

/// Every request carries the slot after the head slot, in its body and in the
/// signed digest alike, and the raw bytes of the transaction whose hash is signed.
pub proof fn lemma_request_slot_is_next(
    r: PreconfRequest,
    protocol: Protocol,
    head_slot: u64,
    hash: [u8; 32],
    raw: Seq<u8>,
    url: Seq<char>,
    secret: Seq<u8>,
)
    requires
        head_slot < u64::MAX,
        is_request_for(r, protocol, (head_slot + 1) as u64, hash, raw, url, secret),
    ensures
        protocol != Protocol::Ethgas ==> r.body@ == rpc_request_text(
            method_of(protocol),
            inclusion_params_text((head_slot + 1) as u64, raw),
        ),
        protocol != Protocol::Ethgas ==> (r.signature matches Some(t) && t@ == signed_token_text(
            secret,
            seq![hash],
            (head_slot + 1) as u64,
        )),
        protocol == Protocol::Ethgas ==> r.body@ == ethgas_body_text(
            (head_slot + 1) as u64,
            REPLACEMENT_UUID@,
            raw,
        ),
{
}

} // verus!
