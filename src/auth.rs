//! The authentication token: a signature over the transaction hashes and the
//! target slot.
use crate::bindings::{
    address_checksum, checksum_address_of, hex_encode, keccak256, keccak256_of, key_address,
    key_address_of, key_is_valid, key_sign_digest, key_signature_of, key_signs,
};
use crate::error::PreconfError;
use crate::text::{hex_text, lemma_hex_text_len};
use vstd::prelude::*;

verus! {

/// The secret key of the signer, as its 32 raw bytes.
#[derive(Clone, Copy)]
pub struct LocalKey {
    pub secret: [u8; 32],
}

/// The hashes' bytes, one after another, in order.
pub open spec fn hashes_bytes(hashes: Seq<[u8; 32]>) -> Seq<u8>
    decreases hashes.len(),
{
    if hashes.len() == 0 {
        seq![]
    } else {
        hashes_bytes(hashes.drop_last()) + hashes.last()@
    }
}

/// The eight little-endian bytes of a slot.
pub open spec fn le_bytes(n: u64) -> Seq<u8> {
    seq![
        (n % 0x100) as u8,
        ((n / 0x100) % 0x100) as u8,
        ((n / 0x1_0000) % 0x100) as u8,
        ((n / 0x100_0000) % 0x100) as u8,
        ((n / 0x1_0000_0000) % 0x100) as u8,
        ((n / 0x100_0000_0000) % 0x100) as u8,
        ((n / 0x1_0000_0000_0000) % 0x100) as u8,
        ((n / 0x100_0000_0000_0000) % 0x100) as u8,
    ]
}

/// What is hashed: the hashes' bytes, then the slot in little-endian order.
pub open spec fn signing_preimage(hashes: Seq<[u8; 32]>, slot: u64) -> Seq<u8> {
    hashes_bytes(hashes) + le_bytes(slot)
}

/// What is signed: the Keccak-256 digest of the preimage.
pub open spec fn signing_digest_of(hashes: Seq<[u8; 32]>, slot: u64) -> Seq<u8> {
    keccak256_of(signing_preimage(hashes, slot))
}

/// `<address>:0x<signature in lowercase hex>`.
pub open spec fn auth_token_text(address: Seq<char>, signature: Seq<u8>) -> Seq<char> {
    address + ":0x"@ + hex_text(signature)
}

/// Signing the hashes and slot with the key of these secret bytes succeeds.
pub open spec fn signs_request(secret: Seq<u8>, hashes: Seq<[u8; 32]>, slot: u64) -> bool {
    key_is_valid(secret) && key_signs(secret, signing_digest_of(hashes, slot))
}

/// The token that the key with these secret bytes gives for the hashes and slot.
pub open spec fn signed_token_text(secret: Seq<u8>, hashes: Seq<[u8; 32]>, slot: u64) -> Seq<char> {
    auth_token_text(
        checksum_address_of(key_address_of(secret)),
        key_signature_of(secret, signing_digest_of(hashes, slot)),
    )
}

/// The bytes that are hashed for the signature.
pub fn digest_preimage(tx_hashes: &Vec<[u8; 32]>, target_slot: u64) -> (r: Vec<u8>)
    ensures
        r@ == signing_preimage(tx_hashes@, target_slot),
{
    let mut data: Vec<u8> = Vec::new();
    let mut i: usize = 0;
    while i < tx_hashes.len()
        invariant
            i <= tx_hashes@.len(),
            data@ == hashes_bytes(tx_hashes@.subrange(0, i as int)),
        decreases tx_hashes@.len() - i,
    {
        let hash: [u8; 32] = tx_hashes[i];
        let ghost before = data@;
        let mut j: usize = 0;
        while j < 32
            invariant
                j <= 32,
                hash@.len() == 32,
                data@ == before + hash@.subrange(0, j as int),
            decreases 32 - j,
        {
            data.push(hash[j]);
            j = j + 1;
            assert(data@ =~= before + hash@.subrange(0, j as int));
        }
        let ghost taken = tx_hashes@.subrange(0, i + 1);
        assert(taken.drop_last() =~= tx_hashes@.subrange(0, i as int));
        assert(hash@.subrange(0, 32) =~= hash@);
        i = i + 1;
    }
    assert(tx_hashes@.subrange(0, tx_hashes@.len() as int) =~= tx_hashes@);
    let ghost hashed = data@;
    data.push((target_slot % 0x100) as u8);
    data.push(((target_slot / 0x100) % 0x100) as u8);
    data.push(((target_slot / 0x1_0000) % 0x100) as u8);
    data.push(((target_slot / 0x100_0000) % 0x100) as u8);
    data.push(((target_slot / 0x1_0000_0000) % 0x100) as u8);
    data.push(((target_slot / 0x100_0000_0000) % 0x100) as u8);
    data.push(((target_slot / 0x1_0000_0000_0000) % 0x100) as u8);
    data.push(((target_slot / 0x100_0000_0000_0000) % 0x100) as u8);
    assert(data@ =~= hashed + le_bytes(target_slot));
    data
}

/// The 32-byte digest that the signer signs.
pub fn signing_digest(tx_hashes: &Vec<[u8; 32]>, target_slot: u64) -> (r: [u8; 32])
    ensures
        r@ == signing_digest_of(tx_hashes@, target_slot),
{
    let data = digest_preimage(tx_hashes, target_slot);
    keccak256(&data)
}

/// Formats a token from the signer's address text and the signature bytes.
pub fn auth_token(address: &str, signature: &[u8; 65]) -> (r: String)
    ensures
        r@ == auth_token_text(address@, signature@),
        r@.len() == address@.len() + 3 + 130,
{
    proof {
        lemma_hex_text_len(signature@);
        reveal_strlit(":0x");
    }
    let mut token = String::from_str(address);
    token.append(":0x");
    let hex = hex_encode(signature.as_slice());
    token.append(hex.as_str());
    assert(token@ =~= auth_token_text(address@, signature@));
    token
}

/// Signs the hashes and the target slot with the key, and returns the token
/// `<checksummed address>:0x<signature hex>`.
pub fn sign_request(tx_hashes: &Vec<[u8; 32]>, target_slot: u64, wallet: &LocalKey) -> (r: Result<
    String,
    PreconfError,
>)
    ensures
        r is Ok <==> signs_request(wallet.secret@, tx_hashes@, target_slot),
        r matches Ok(t) ==> t@ == signed_token_text(wallet.secret@, tx_hashes@, target_slot),
        r matches Ok(t) ==> t@.len() == 42 + 3 + 130,
        r matches Err(e) ==> e == PreconfError::Signing,
{
    let digest = signing_digest(tx_hashes, target_slot);
    let address = match key_address(&wallet.secret) {
        Some(a) => a,
        None => return Err(PreconfError::Signing),
    };
    let signature = match key_sign_digest(&wallet.secret, &digest) {
        Some(s) => s,
        None => return Err(PreconfError::Signing),
    };
    let address_text = address_checksum(&address);
    Ok(auth_token(address_text.as_str(), &signature))
}

/// The token depends on the key, the hashes and the slot alone: the same three
/// give the same digest, and so the same signature and token.
pub proof fn lemma_signing_is_deterministic(
    secret: Seq<u8>,
    hashes1: Seq<[u8; 32]>,
    slot1: u64,
    hashes2: Seq<[u8; 32]>,
    slot2: u64,
)
    requires
        hashes1 == hashes2,
        slot1 == slot2,
    ensures
        signing_preimage(hashes1, slot1) == signing_preimage(hashes2, slot2),
        signing_digest_of(hashes1, slot1) == signing_digest_of(hashes2, slot2),
        signed_token_text(secret, hashes1, slot1) == signed_token_text(secret, hashes2, slot2),
{
}

/// For one hash, the preimage is that hash's 32 bytes followed by the slot's
/// eight little-endian bytes; for slot one they are `01` and seven zero bytes.
pub proof fn lemma_single_hash_preimage(hash: [u8; 32], slot: u64)
    ensures
        signing_preimage(seq![hash], slot) == hash@ + le_bytes(slot),
        signing_preimage(seq![hash], slot).len() == 40,
        le_bytes(1) == seq![1u8, 0u8, 0u8, 0u8, 0u8, 0u8, 0u8, 0u8],
{
    assert(seq![hash].drop_last() =~= Seq::<[u8; 32]>::empty());
    assert(hashes_bytes(Seq::<[u8; 32]>::empty()) =~= Seq::<u8>::empty());
    assert(seq![hash].last() == hash);
    assert(hashes_bytes(seq![hash]) =~= hash@);
    assert(le_bytes(1) =~= seq![1u8, 0u8, 0u8, 0u8, 0u8, 0u8, 0u8, 0u8]);
}

} // verus!
