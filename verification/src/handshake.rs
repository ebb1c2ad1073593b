use vstd::prelude::*;
use crate::keys::StaticSecret;

verus! {

/// HMAC-SHA256 of `msg` under `key`, as the `hmac` and `sha2` crates compute it.
pub uninterp spec fn hmac_sha256_of(key: Seq<u8>, msg: Seq<u8>) -> Seq<u8>;

/// `Hmac::<Sha256>::new_from_slice(key)`, `update(msg)`, `finalize()`.
/// `new_from_slice` accepts keys of any length. Claimed: the tag is
/// `hmac_sha256_of(key, msg)`.
#[verifier::external_body]
fn hmac_sha256(key: &[u8], msg: &[u8]) -> (tag: [u8; 32])
    ensures
        tag@ == hmac_sha256_of(key@, msg@),
{
    let mut mac = <hmac::Hmac<sha2::Sha256> as hmac::Mac>::new_from_slice(key).unwrap();
    hmac::Mac::update(&mut mac, msg);
    hmac::Mac::finalize(mac).into_bytes().into()
}

/// `Mac::verify_slice` after `new_from_slice(key)` and `update(msg)`: a
/// constant-time comparison of `tag` with the HMAC. Claimed: it accepts exactly
/// when `tag` equals `hmac_sha256_of(key, msg)`.
#[verifier::external_body]
fn hmac_sha256_verify(key: &[u8], msg: &[u8], tag: &[u8]) -> (ok: bool)
    ensures
        ok == (tag@ == hmac_sha256_of(key@, msg@)),
{
    let mut mac = <hmac::Hmac<sha2::Sha256> as hmac::Mac>::new_from_slice(key).unwrap();
    hmac::Mac::update(&mut mac, msg);
    hmac::Mac::verify_slice(mac, tag).is_ok()
}

/// 32 bytes from the thread-local random generator. Nothing is claimed of them.
#[verifier::external_body]
fn random_bytes_32() -> [u8; 32] {
    let mut nonce = [0u8; 32];
    rand::RngCore::fill_bytes(&mut rand::thread_rng(), &mut nonce);
    nonce
}

/// A fresh random nonce for one handshake.
pub fn new_nonce() -> (n: [u8; 32]) {
    random_bytes_32()
}

/// The proof that a peer sends: the HMAC of the other peer's nonce under the secret.
pub open spec fn handshake_proof_of(secret: Seq<u8>, peer_nonce: Seq<u8>) -> Seq<u8> {
    hmac_sha256_of(secret, peer_nonce)
}

/// A peer accepts `peer_proof` when it is the HMAC of its own nonce under its secret.
pub open spec fn handshake_accepts(secret: Seq<u8>, my_nonce: Seq<u8>, peer_proof: Seq<u8>) -> bool {
    peer_proof == hmac_sha256_of(secret, my_nonce)
}

/// Computes the proof that this side sends in answer to the peer's nonce.
pub fn handshake_proof(shared_secret: &StaticSecret, peer_nonce: &[u8; 32]) -> (proof: [u8; 32])
    ensures
        proof@ == handshake_proof_of(shared_secret.view_bytes(), peer_nonce@),
{
    let secret_bytes = shared_secret.to_bytes();
    hmac_sha256(&secret_bytes, peer_nonce)
}

/// Checks the peer's proof against the nonce this side sent.
pub fn verify_handshake(shared_secret: &StaticSecret, my_nonce: &[u8; 32], peer_proof: &[u8; 32]) -> (ok: bool)
    ensures
        ok == handshake_accepts(shared_secret.view_bytes(), my_nonce@, peer_proof@),
{
    let secret_bytes = shared_secret.to_bytes();
    hmac_sha256_verify(&secret_bytes, my_nonce, peer_proof)
}

/// Mutual authentication succeeds between peers that hold the same secret:
/// whatever nonces they exchange, each accepts the other's proof.
pub proof fn lemma_same_secret_handshake_succeeds(secret: Seq<u8>, server_nonce: Seq<u8>, client_nonce: Seq<u8>)
    ensures
        handshake_accepts(secret, server_nonce, handshake_proof_of(secret, server_nonce)),
        handshake_accepts(secret, client_nonce, handshake_proof_of(secret, client_nonce)),
{
}

} // verus!
