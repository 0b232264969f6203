use crate::types::{PublicKey, Signature};
use vstd::prelude::*;

verus! {

/// Whether `signature` is a valid ed25519 signature of `data` under `key`.
/// It depends on the three byte strings alone.
pub uninterp spec fn ed25519_verifies(key: Seq<u8>, signature: Seq<u8>, data: Seq<u8>) -> bool;

/// Whether `signature` is a valid BLS signature of `data` under `key`.
/// It depends on the three byte strings alone.
pub uninterp spec fn bls_verifies(key: Seq<u8>, signature: Seq<u8>, data: Seq<u8>) -> bool;

/// Whether `share` is a valid BLS signature share of `data` under the key
/// share `key`. It depends on the three byte strings alone.
pub uninterp spec fn bls_share_verifies(key: Seq<u8>, share: Seq<u8>, data: Seq<u8>) -> bool;

/// Whether `signature` signs `data` under `key`. A key and a signature of
/// different kinds never verify.
pub open spec fn signature_valid(key: PublicKey, signature: Signature, data: Seq<u8>) -> bool {
    match (key, signature) {
        (PublicKey::Ed25519(k), Signature::Ed25519(s)) => ed25519_verifies(k@, s@, data),
        (PublicKey::Bls(k), Signature::Bls(s)) => bls_verifies(k@, s@, data),
        (PublicKey::BlsShare(k), Signature::BlsShare { share, .. }) => bls_share_verifies(
            k@,
            share@,
            data,
        ),
        _ => false,
    }
}

/// Checks `signature` over `data` under `key`, by the kind of the key.
pub fn verify_signature(key: &PublicKey, signature: &Signature, data: &Vec<u8>) -> (r: bool)
    ensures
        r == signature_valid(*key, *signature, data@),
{
    match (key, signature) {
        (PublicKey::Ed25519(k), Signature::Ed25519(s)) => verify_ed25519(k, s, data),
        (PublicKey::Bls(k), Signature::Bls(s)) => verify_bls(k, s, data),
        (PublicKey::BlsShare(k), Signature::BlsShare { index, share }) => verify_bls_share(
            k,
            *index,
            share,
            data,
        ),
        _ => false,
    }
}

/// Relies on safe_nd::PublicKey::verify for an ed25519 key (a check through
/// ed25519_dalek), after ed25519_dalek parses the key and signature bytes.
/// Bytes that do not parse as a key or a signature verify nothing.
#[verifier::external_body]
fn verify_ed25519(key: &[u8; 32], signature: &[u8; 64], data: &Vec<u8>) -> (r: bool)
    ensures
        r == ed25519_verifies(key@, signature@, data@),
{
    let key = match ed25519_dalek::PublicKey::from_bytes(key) {
        Ok(key) => safe_nd::PublicKey::from(key),
        Err(_) => return false,
    };
    let signature = match ed25519_dalek::Signature::from_bytes(signature) {
        Ok(signature) => safe_nd::Signature::from(signature),
        Err(_) => return false,
    };
    key.verify(&signature, data).is_ok()
}

/// Relies on safe_nd::PublicKey::verify for a BLS key (a pairing check of
/// threshold_crypto), after threshold_crypto parses the key and signature
/// bytes. Bytes that do not parse as a key or a signature verify nothing.
#[verifier::external_body]
fn verify_bls(key: &[u8; 48], signature: &[u8; 96], data: &Vec<u8>) -> (r: bool)
    ensures
        r == bls_verifies(key@, signature@, data@),
{
    let key = match threshold_crypto::PublicKey::from_bytes(key) {
        Ok(key) => safe_nd::PublicKey::Bls(key),
        Err(_) => return false,
    };
    let signature = match threshold_crypto::Signature::from_bytes(signature) {
        Ok(signature) => safe_nd::Signature::Bls(signature),
        Err(_) => return false,
    };
    key.verify(&signature, data).is_ok()
}

/// Relies on safe_nd::PublicKey::verify for a BLS key share, which checks the
/// share through threshold_crypto and does not read the share's index, after
/// threshold_crypto parses the key share and signature share bytes. Bytes
/// that do not parse verify nothing.
#[verifier::external_body]
fn verify_bls_share(key: &[u8; 48], index: usize, share: &[u8; 96], data: &Vec<u8>) -> (r: bool)
    ensures
        r == bls_share_verifies(key@, share@, data@),
{
    let key = match threshold_crypto::PublicKeyShare::from_bytes(key) {
        Ok(key) => safe_nd::PublicKey::BlsShare(key),
        Err(_) => return false,
    };
    let share = match threshold_crypto::SignatureShare::from_bytes(share) {
        Ok(share) => safe_nd::Signature::BlsShare(safe_nd::SignatureShare { index, share }),
        Err(_) => return false,
    };
    key.verify(&share, data).is_ok()
}

} // verus!
