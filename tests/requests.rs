use alloy::eips::eip2718::Decodable2718;
use alloy::signers::local::PrivateKeySigner;
use alloy::signers::SignerSync;
use preconf_sender::auth::{auth_token, digest_preimage, sign_request, signing_digest, LocalKey};
use preconf_sender::beacon::{deserialize, head_slot_url, serialize};
use preconf_sender::error::PreconfError;
use preconf_sender::protocols::{
    envelope_to_raw_bytes, ethgas_body, ethgas_request, inclusion_params, prepare_request,
    prepare_request_for, prepare_rpc_request, target_slot, Protocol, REPLACEMENT_UUID,
};
use preconf_sender::text::{format_u64, parse_u64};

const TEST_KEY: &str = "ac0974bec39a17e36ba4a6b4d238ff944bacb478cbed5efcae784d7bf4f2ff80";
const TEST_ADDRESS: &str = "0xf39Fd6e51aad88F6F4ce6aB8827279cffFb92266";
const CANNED_TX: &str = "02f885827a6901843b9aca0084773594008252089412643b525cc34282ba84298d32bf2d094448f1c4019945746847617320496e636c7573696f6e20507265636f6e6673c001a0156d9b84193af432f32aef3976417dfca1f0d71f8e015ba8b3d68a11fe388a5ea059eefd7c77489551dfb04a887493617b83a4b78923b7592a992f0ed5c57d520a";

fn test_key() -> LocalKey {
    let bytes = alloy::hex::decode(TEST_KEY).unwrap();
    let mut secret = [0u8; 32];
    secret.copy_from_slice(&bytes);
    LocalKey { secret }
}

fn canned_envelope() -> alloy::consensus::TxEnvelope {
    let bytes = alloy::hex::decode(CANNED_TX).unwrap();
    alloy::consensus::TxEnvelope::decode_2718(&mut bytes.as_slice()).unwrap()
}

#[test]
fn target_slot_is_next_slot() {
    assert_eq!(target_slot(0), Ok(1));
    assert_eq!(target_slot(100), Ok(101));
    assert_eq!(target_slot(u64::MAX - 1), Ok(u64::MAX));
}

#[test]
fn target_slot_overflow_is_an_error() {
    assert_eq!(target_slot(u64::MAX), Err(PreconfError::SlotOverflow));
}

#[test]
fn head_slot_text_round_trip() {
    assert_eq!(deserialize("123456"), Ok(123456));
    assert_eq!(serialize(123456), "123456");
    assert_eq!(serialize(0), "0");
    assert_eq!(deserialize(&serialize(u64::MAX)), Ok(u64::MAX));
    assert_eq!(serialize(u64::MAX), u64::MAX.to_string());
}

#[test]
fn slot_text_matches_std_parse() {
    for s in ["0", "7", "+5", "007", "18446744073709551615", "18446744073709551616", "", "+",
        "-1", "12a", " 1", "99999999999999999999999"]
    {
        assert_eq!(parse_u64(s), s.parse::<u64>().ok(), "{}", s);
    }
}

#[test]
fn bad_slot_text_is_a_decode_error() {
    assert_eq!(deserialize("abc"), Err(PreconfError::Decode));
    assert_eq!(deserialize(""), Err(PreconfError::Decode));
    assert_eq!(deserialize("18446744073709551616"), Err(PreconfError::Decode));
}

#[test]
fn format_u64_writes_decimal() {
    assert_eq!(format_u64(10), "10");
    assert_eq!(format_u64(1234567890), "1234567890");
}

#[test]
fn preimage_is_hashes_then_little_endian_slot() {
    let pre = digest_preimage(&vec![[0u8; 32]], 1);
    let mut expected = vec![0u8; 32];
    expected.extend_from_slice(&[1, 0, 0, 0, 0, 0, 0, 0]);
    assert_eq!(pre, expected);
    let pre = digest_preimage(&vec![[0xaa; 32], [0xbb; 32]], 0x0102030405060708);
    let mut expected = vec![0xaa; 32];
    expected.extend_from_slice(&[0xbb; 32]);
    expected.extend_from_slice(&[8, 7, 6, 5, 4, 3, 2, 1]);
    assert_eq!(pre, expected);
}

#[test]
fn digest_is_keccak_of_preimage() {
    let digest = signing_digest(&vec![[0u8; 32]], 1);
    let mut buffer = vec![0u8; 32];
    buffer.extend_from_slice(&1u64.to_le_bytes());
    assert_eq!(digest, alloy::primitives::keccak256(&buffer).0);
    assert_ne!(digest.to_vec(), buffer[..32].to_vec());
    let empty = signing_digest(&vec![], 0);
    assert_eq!(empty, alloy::primitives::keccak256([0u8; 8]).0);
}

#[test]
fn auth_token_format() {
    let sig = [0xabu8; 65];
    let token = auth_token("0xAbC", &sig);
    assert_eq!(token, format!("0xAbC:0x{}", "ab".repeat(65)));
}

#[test]
fn sign_request_token_and_determinism() {
    let key = test_key();
    let a = sign_request(&vec![[1u8; 32]], 101, &key).unwrap();
    let b = sign_request(&vec![[1u8; 32]], 101, &key).unwrap();
    assert_eq!(a, b);
    assert!(a.starts_with(&format!("{}:0x", TEST_ADDRESS)));
    assert_eq!(a.len(), 42 + 3 + 130);
    let c = sign_request(&vec![[1u8; 32]], 102, &key).unwrap();
    assert_ne!(a, c);
}

#[test]
fn sign_request_signs_the_digest() {
    let key = test_key();
    let signer: PrivateKeySigner = TEST_KEY.parse().unwrap();
    let digest = signing_digest(&vec![[3u8; 32]], 42);
    let sig = signer.sign_hash_sync(&alloy::primitives::B256::from(digest)).unwrap();
    let expected = format!("{}:0x{}", TEST_ADDRESS, alloy::hex::encode(sig.as_bytes()));
    assert_eq!(sign_request(&vec![[3u8; 32]], 42, &key).unwrap(), expected);
}

#[test]
fn invalid_key_is_a_signing_error() {
    let key = LocalKey { secret: [0u8; 32] };
    assert_eq!(sign_request(&vec![[1u8; 32]], 1, &key), Err(PreconfError::Signing));
}

#[test]
fn rpc_request_shape() {
    assert_eq!(
        prepare_rpc_request("m", "{}"),
        "{\"id\":\"1\",\"jsonrpc\":\"2.0\",\"method\":\"m\",\"params\":[{}]}"
    );
    assert_eq!(inclusion_params(7, &vec![0x02, 0xab]), "{\"slot\":7,\"txs\":[\"0x02ab\"]}");
}

#[test]
fn bolt_request_body_and_signature() {
    let key = test_key();
    let raw = vec![0x02u8, 0xab, 0xff];
    let req = prepare_request_for(Protocol::Bolt, 100, [9u8; 32], &raw, "http://relay:1/", &key)
        .unwrap();
    assert_eq!(
        req.body,
        "{\"id\":\"1\",\"jsonrpc\":\"2.0\",\"method\":\"bolt_requestInclusion\",\"params\":[{\"slot\":101,\"txs\":[\"0x02abff\"]}]}"
    );
    assert_eq!(req.url, "http://relay:1/");
    assert_eq!(req.signature, Some(sign_request(&vec![[9u8; 32]], 101, &key).unwrap()));
}

#[test]
fn bolt_and_luban_differ_only_in_method() {
    let key = test_key();
    let raw = vec![1u8, 2, 3];
    let bolt = prepare_request_for(Protocol::Bolt, 5, [4u8; 32], &raw, "http://r/", &key).unwrap();
    let luban = prepare_request_for(Protocol::Luban, 5, [4u8; 32], &raw, "http://r/", &key).unwrap();
    assert_eq!(bolt.body.replace("bolt_requestInclusion", "luban_requestInclusion"), luban.body);
    assert_ne!(bolt.body, luban.body);
    assert_eq!(bolt.signature, luban.signature);
    assert_eq!(bolt.url, luban.url);
}

#[test]
fn ethgas_url_join() {
    let raw = vec![0x10u8];
    let a = ethgas_request(1, &raw, "https://relay.example/").unwrap();
    assert_eq!(a.url, "https://relay.example/api/inclusion_preconf/send");
    let b = ethgas_request(1, &raw, "https://relay.example/v2").unwrap();
    assert_eq!(b.url, "https://relay.example/api/inclusion_preconf/send");
    let c = ethgas_request(1, &raw, "https://relay.example/v2/?q=1").unwrap();
    assert_eq!(c.url, "https://relay.example/api/inclusion_preconf/send");
    assert_eq!(ethgas_request(1, &raw, "not a url").unwrap_err(), PreconfError::InvalidUrl);
}

#[test]
fn ethgas_body_shape() {
    let raw = vec![0xdeu8, 0xad];
    let req = ethgas_request(101, &raw, "https://relay.example/").unwrap();
    assert_eq!(req.signature, None);
    assert_eq!(
        req.body,
        format!(
            "{{\"slotNumber\":101,\"replacementUuid\":\"{}\",\"trxs\":[{{\"tx\":\"0xdead\",\"canRevert\":false}}]}}",
            REPLACEMENT_UUID
        )
    );
    assert_eq!(ethgas_body(3, "u", &vec![]), "{\"slotNumber\":3,\"replacementUuid\":\"u\",\"trxs\":[{\"tx\":\"0x\",\"canRevert\":false}]}");
}

#[test]
fn head_slot_url_join() {
    assert_eq!(
        head_slot_url("http://localhost:5052").unwrap(),
        "http://localhost:5052/eth/v1/beacon/headers/head"
    );
    assert_eq!(
        head_slot_url("http://localhost:5052/node/").unwrap(),
        "http://localhost:5052/node/eth/v1/beacon/headers/head"
    );
    assert_eq!(
        head_slot_url("http://localhost:5052/node").unwrap(),
        "http://localhost:5052/node/eth/v1/beacon/headers/head"
    );
    assert_eq!(head_slot_url("::"), Err(PreconfError::InvalidUrl));
}

#[test]
fn head_slot_overflow_fails_every_protocol() {
    let key = test_key();
    for p in [Protocol::Bolt, Protocol::Ethgas, Protocol::Luban] {
        let r = prepare_request_for(p, u64::MAX, [0u8; 32], &vec![1], "http://r/", &key);
        assert_eq!(r.unwrap_err(), PreconfError::SlotOverflow);
    }
}

#[test]
fn end_to_end_with_canned_transaction() {
    let tx = canned_envelope();
    let raw = envelope_to_raw_bytes(&tx);
    let mut network = Vec::new();
    alloy::eips::eip2718::Encodable2718::network_encode(&tx, &mut network);
    assert_eq!(raw, network);
    let expected_hex = format!("0x{}", alloy::hex::encode(&raw));
    let key = test_key();
    let head = deserialize("100").unwrap();

    let bolt = prepare_request(Protocol::Bolt, head, &tx, "http://relay/", &key).unwrap();
    let body: serde_json::Value = serde_json::from_str(&bolt.body).unwrap();
    assert_eq!(body["params"][0]["slot"].as_u64(), Some(101));
    assert_eq!(body["params"][0]["txs"][0].as_str(), Some(expected_hex.as_str()));
    assert_eq!(body["method"].as_str(), Some("bolt_requestInclusion"));
    let token = sign_request(&vec![tx.tx_hash().0], 101, &key).unwrap();
    assert_eq!(bolt.signature, Some(token));

    let ethgas = prepare_request(Protocol::Ethgas, head, &tx, "http://relay/", &key).unwrap();
    let body: serde_json::Value = serde_json::from_str(&ethgas.body).unwrap();
    assert_eq!(body["slotNumber"].as_u64(), Some(101));
    assert_eq!(body["trxs"][0]["tx"].as_str(), Some(expected_hex.as_str()));
    assert_eq!(body["trxs"][0]["canRevert"].as_bool(), Some(false));
    assert_eq!(ethgas.url, "http://relay/api/inclusion_preconf/send");
}

#[test]
fn digest_known_vector_for_zero_hash_and_slot_one() {
    let digest = signing_digest(&vec![[0u8; 32]], 1);
    assert_eq!(
        alloy::hex::encode(digest),
        "210e5b4204cc718ae577ed39be7024eb237245ba18c97d96a0c9e465fe617f5c"
    );
}

#[test]
fn invalid_key_fails_bolt_and_luban_but_not_ethgas() {
    let key = LocalKey { secret: [0u8; 32] };
    for p in [Protocol::Bolt, Protocol::Luban] {
        let r = prepare_request_for(p, 100, [1u8; 32], &vec![1], "http://r/", &key);
        assert_eq!(r.unwrap_err(), PreconfError::Signing);
    }
    let r = prepare_request_for(Protocol::Ethgas, 100, [1u8; 32], &vec![1], "http://r/", &key);
    assert!(r.is_ok());
}

#[test]
fn token_has_address_and_signature_digits() {
    let token = sign_request(&vec![[7u8; 32]], 9, &test_key()).unwrap();
    assert_eq!(token.len(), 175);
    let (address, sig) = token.split_at(42);
    assert_eq!(address, TEST_ADDRESS);
    assert!(sig.starts_with(":0x"));
    assert!(sig[3..].chars().all(|c| c.is_ascii_digit() || ('a'..='f').contains(&c)));
}

#[test]
fn envelope_bytes_are_deterministic_and_nonempty() {
    let a = envelope_to_raw_bytes(&canned_envelope());
    let b = envelope_to_raw_bytes(&canned_envelope());
    assert_eq!(a, b);
    assert!(!a.is_empty());
    let typed = alloy::hex::decode(CANNED_TX).unwrap();
    assert_eq!(&a[a.len() - typed.len()..], typed.as_slice());
}
