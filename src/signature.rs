//! Ed25519 checking of a message against raw signature and public-key bytes.
use ed25519_dalek::Verifier;
use vstd::prelude::*;
use vstd::utf8::encode_utf8;

use crate::payload::ProofError;

verus! {

/// Length in bytes of an encoded Ed25519 public key.
pub const PUBLIC_KEY_LENGTH: usize = 32;

/// Length in bytes of an encoded Ed25519 signature.
pub const SIGNATURE_LENGTH: usize = 64;

/// The error ed25519_dalek reports when key or signature bytes do not decode.
#[verifier::external_type_specification]
#[verifier::external_body]
pub struct ExSignatureError(ed25519_dalek::SignatureError);

/// Whether 32 bytes are the compressed form of a point on the Edwards curve.
pub uninterp spec fn point_decompresses(key: Seq<u8>) -> bool;

/// Whether Ed25519 verification accepts `signature` over `message` under `key`.
pub uninterp spec fn ed25519_accepts(key: Seq<u8>, message: Seq<u8>, signature: Seq<u8>) -> bool;

/// A public key decodes when it has the right length and names a curve point.
pub open spec fn public_key_well_formed(key: Seq<u8>) -> bool {
    key.len() == PUBLIC_KEY_LENGTH && point_decompresses(key)
}

/// A signature decodes when it has the right length and the top three bits of
/// its scalar half are clear.
pub open spec fn signature_well_formed(signature: Seq<u8>) -> bool {
    signature.len() == SIGNATURE_LENGTH && signature[SIGNATURE_LENGTH - 1] & 0xe0u8 == 0
}

/// Relies on ed25519_dalek's `PublicKey::from_bytes` (length 32, then point
/// decompression), ed25519's `Signature::from_bytes` (length 64, then the
/// three high bits of the last byte must be clear) and
/// `Verifier::verify` of `PublicKey`, whose verdict is named by `ed25519_accepts`.
#[verifier::external_body]
fn ed25519_verify(key: &[u8], message: &[u8], signature: &[u8]) -> (r: Result<bool, ed25519_dalek::SignatureError>)
    ensures
        r.is_ok() == (key@.len() == PUBLIC_KEY_LENGTH && point_decompresses(key@)
            && signature_well_formed(signature@)),
        r.is_ok() ==> r.unwrap() == ed25519_accepts(key@, message@, signature@),
{
    let key = ed25519_dalek::PublicKey::from_bytes(key)?;
    let signature = ed25519_dalek::Signature::from_bytes(signature)?;
    Ok(key.verify(message, &signature).is_ok())
}

/// What checking a signature yields: `Ok(true)` when it verifies, `Ok(false)`
/// when the key material is well formed but the signature does not verify.
pub open spec fn signature_outcome(message: Seq<u8>, signature: Seq<u8>, key: Seq<u8>) -> Result<bool, ProofError> {
    if public_key_well_formed(key) && signature_well_formed(signature) {
        Ok(ed25519_accepts(key, message, signature))
    } else {
        Err(ProofError::MalformedKeyMaterial)
    }
}

/// Checks `signature` over the UTF-8 bytes of `message` under `public_key`.
pub fn verify_signature(message: &str, signature: &[u8], public_key: &[u8]) -> (r: Result<bool, ProofError>)
    ensures
        r == signature_outcome(encode_utf8(message@), signature@, public_key@),
{
    match ed25519_verify(public_key, message.as_bytes(), signature) {
        Ok(b) => Ok(b),
        Err(_) => Err(ProofError::MalformedKeyMaterial),
    }
}

} // verus!
