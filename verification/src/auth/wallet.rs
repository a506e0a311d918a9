//! Stellar wallet sign-in: decoding a `G…` address to its ed25519 key,
//! checking a signature of the challenge, and the challenge text itself.
use vstd::prelude::*;
use vstd::string::StringExecFns;
use ed25519_dalek::{Signature, VerifyingKey};

verus! {

#[verifier::external_type_specification]
#[verifier::external_body]
pub struct ExVerifyingKey(VerifyingKey);

#[verifier::external_type_specification]
#[verifier::external_body]
pub struct ExSignature(Signature);

/// What a strkey decodes to: an ed25519 public key with its 32 bytes, a strkey
/// of another kind, or nothing valid.
pub enum StrkeyDecoding {
    PublicKeyEd25519([u8; 32]),
    OtherKind,
    Invalid,
}

/// What `stellar_strkey::Strkey::from_string` makes of a string.
pub uninterp spec fn strkey_decoding(s: Seq<char>) -> StrkeyDecoding;

/// Whether `VerifyingKey::from_bytes` accepts 32 bytes (they decompress to a
/// point of the curve).
pub uninterp spec fn ed25519_key_decodes(bytes: Seq<u8>) -> bool;

/// `Strkey::from_string`, with the decoded strkey told apart by kind.
#[verifier::external_body]
fn decode_strkey(s: &str) -> (r: StrkeyDecoding)
    ensures
        r == strkey_decoding(s@),
{
    match stellar_strkey::Strkey::from_string(s) {
        Ok(stellar_strkey::Strkey::PublicKeyEd25519(pk)) => StrkeyDecoding::PublicKeyEd25519(pk.0),
        Ok(_) => StrkeyDecoding::OtherKind,
        Err(_) => StrkeyDecoding::Invalid,
    }
}

/// Whether `VerifyingKey::verify_strict` accepts `signature` as a signature of
/// `message` under the key whose compressed form is `key`, the key decoded by
/// `VerifyingKey::from_bytes` and the signature by `Signature::from_slice`.
pub uninterp spec fn ed25519_strict_accepts(key: Seq<u8>, message: Seq<u8>, signature: Seq<u8>) -> bool;

/// A key decoded by `VerifyingKey::from_bytes`, kept with its bytes. The
/// fields are private and `verifying_key` is the one place that builds a
/// value, so `key` is always what `bytes` decode to.
struct DecodedKey {
    bytes: [u8; 32],
    key: VerifyingKey,
}

/// A signature read by `Signature::from_slice`, kept with its bytes. The
/// fields are private and `signature_from_slice` is the one place that builds
/// a value, so `signature` is always what `bytes` give.
struct DecodedSignature {
    bytes: Vec<u8>,
    signature: Signature,
}

/// `VerifyingKey::from_bytes`. Its one failure, a point that does not
/// decompress, displays as the text stated here.
#[verifier::external_body]
fn verifying_key(bytes: &[u8; 32]) -> (r: Result<DecodedKey, String>)
    ensures
        r is Ok == ed25519_key_decodes(bytes@),
        r matches Err(m) ==> m@ == "signature error: Cannot decompress Edwards point"@,
        r matches Ok(k) ==> k.bytes@ == bytes@,
{
    match VerifyingKey::from_bytes(bytes) {
        Ok(k) => Ok(DecodedKey { bytes: *bytes, key: k }),
        Err(e) => Err(format!("{}", e)),
    }
}

/// `Signature::from_slice`: succeeds exactly on 64 bytes; its error displays
/// as `signature error`.
#[verifier::external_body]
fn signature_from_slice(bytes: &[u8]) -> (r: Result<DecodedSignature, String>)
    ensures
        r is Ok == (bytes@.len() == 64),
        r matches Err(m) ==> m@ == "signature error"@,
        r matches Ok(s) ==> s.bytes@ == bytes@,
{
    match Signature::from_slice(bytes) {
        Ok(s) => Ok(DecodedSignature { bytes: bytes.to_vec(), signature: s }),
        Err(e) => Err(format!("{}", e)),
    }
}

/// `VerifyingKey::verify_strict`: whether the signature of `message` checks
/// under the key, which is `ed25519_strict_accepts` of their bytes.
#[verifier::external_body]
fn verify_strict(key: &DecodedKey, message: &[u8], signature: &DecodedSignature) -> (r: bool)
    ensures
        r == ed25519_strict_accepts(key.bytes@, message@, signature.bytes@),
{
    key.key.verify_strict(message, &signature.signature).is_ok()
}

/// The message for a string that is no valid strkey.
pub open spec fn invalid_key_text() -> Seq<char> {
    "Invalid Stellar public key: the strkey is invalid"@
}

/// The message for a strkey of another kind than a public key.
pub open spec fn not_public_key_text() -> Seq<char> {
    "Not a Stellar public key"@
}

/// The outcome of decoding a Stellar address to key bytes.
pub open spec fn key_bytes_of(public_key: Seq<char>) -> Result<[u8; 32], Seq<char>> {
    match strkey_decoding(public_key) {
        StrkeyDecoding::PublicKeyEd25519(b) => Ok(b),
        StrkeyDecoding::OtherKind => Err(not_public_key_text()),
        StrkeyDecoding::Invalid => Err(invalid_key_text()),
    }
}

/// Decodes a Stellar `G…` address to the raw bytes of its ed25519 key.
pub fn stellar_pk_to_bytes(public_key: &str) -> (r: Result<[u8; 32], String>)
    ensures
        match key_bytes_of(public_key@) {
            Ok(b) => r == Ok::<[u8; 32], String>(b),
            Err(m) => r matches Err(e) && e@ == m,
        },
{
    match decode_strkey(public_key) {
        StrkeyDecoding::PublicKeyEd25519(b) => Ok(b),
        StrkeyDecoding::OtherKind => Err(String::from_str("Not a Stellar public key")),
        StrkeyDecoding::Invalid => Err(String::from_str("Invalid Stellar public key: the strkey is invalid")),
    }
}

/// Checks a signature of `message` against a Stellar address: the address
/// must decode to a public key, the key bytes to a curve point and the
/// signature must be 64 bytes long, each failure with its own message; then
/// the signature is accepted exactly when strict ed25519 verification accepts
/// it, and refused with `Signature verification failed` otherwise.
pub fn verify_signature(public_key: &str, message: &[u8], signature: &[u8]) -> (r: Result<(), String>)
    ensures
        match key_bytes_of(public_key@) {
            Err(m) => r matches Err(e) && e@ == m,
            Ok(b) => if !ed25519_key_decodes(b@) {
                r matches Err(e) && e@ == "Invalid public key bytes: "@ + "signature error: Cannot decompress Edwards point"@
            } else if signature@.len() != 64 {
                r matches Err(e) && e@ == "Invalid signature: "@ + "signature error"@
            } else if ed25519_strict_accepts(b@, message@, signature@) {
                r is Ok
            } else {
                r matches Err(e) && e@ == "Signature verification failed"@
            },
        },
{
    let pk_bytes = match stellar_pk_to_bytes(public_key) {
        Ok(b) => b,
        Err(e) => {
            return Err(e);
        },
    };
    let key = match verifying_key(&pk_bytes) {
        Ok(k) => k,
        Err(e) => {
            let mut m = String::from_str("Invalid public key bytes: ");
            m.append(e.as_str());
            return Err(m);
        },
    };
    let sig = match signature_from_slice(signature) {
        Ok(s) => s,
        Err(e) => {
            let mut m = String::from_str("Invalid signature: ");
            m.append(e.as_str());
            return Err(m);
        },
    };
    if verify_strict(&key, message, &sig) {
        Ok(())
    } else {
        Err(String::from_str("Signature verification failed"))
    }
}

/// The challenge a wallet signs to sign in.
pub open spec fn challenge_text(nonce: Seq<char>) -> Seq<char> {
    "Astinel login: "@ + nonce
}

/// Builds the challenge message for a nonce.
pub fn build_challenge_message(nonce: &str) -> (r: String)
    ensures
        r@ == challenge_text(nonce@),
{
    let mut r = String::from_str("Astinel login: ");
    r.append(nonce);
    r
}

} // verus!
