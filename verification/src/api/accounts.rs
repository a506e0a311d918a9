//! Sign-in with a Stellar wallet, and the names given to the accounts and
//! organizations that sign-up creates.
use vstd::prelude::*;
use vstd::string::{StringExecFns, StringSliceAdditionalSpecFns};
use vstd::utf8::{decode_utf8, encode_utf8, is_char_boundary};
use base64::Engine;
use crate::api::errors::ApiError;
use crate::api::slug::{slug_of, slugify};
use crate::auth::errors::AuthError;
use crate::auth::wallet::{build_challenge_message, challenge_text, ed25519_key_decodes, ed25519_strict_accepts, key_bytes_of, verify_signature};
use crate::digest::hex_text;
use crate::text::chars_of;

verus! {

/// What the standard base64 engine decodes some bytes to, if they are valid
/// base64.
pub uninterp spec fn base64_decoded(input: Seq<u8>) -> Option<Seq<u8>>;

/// `base64::engine::general_purpose::STANDARD.decode`.
#[verifier::external_body]
fn base64_decode(input: &[u8]) -> (r: Option<Vec<u8>>)
    ensures
        match r {
            Some(v) => base64_decoded(input@) == Some(v@),
            None => base64_decoded(input@) is None,
        },
{
    match base64::engine::general_purpose::STANDARD.decode(input) {
        Ok(v) => Some(v),
        Err(_) => None,
    }
}

/// Checks a wallet sign-in: a nonce must have been handed out for the key, the
/// signed message must be base64, and it must be a valid signature of the
/// challenge for that nonce (its UTF-8 bytes) under the key, as strict ed25519
/// verification decides. A missing nonce or a failed check refuses the
/// credentials; undecodable base64 is a bad request.
pub fn check_wallet_login(public_key: &str, nonce: Option<String>, signed_message: &str) -> (r: Result<(), ApiError>)
    ensures
        match nonce {
            None => r matches Err(ApiError::Auth(AuthError::InvalidCredentials)),
            Some(n) => match base64_decoded(signed_message.spec_bytes()) {
                None => r matches Err(ApiError::BadRequest(m)) && m@ == "Invalid base64 signature"@,
                Some(sig) => match key_bytes_of(public_key@) {
                    Err(_) => r matches Err(ApiError::Auth(AuthError::InvalidCredentials)),
                    Ok(b) => if !ed25519_key_decodes(b@) || sig.len() != 64 {
                        r matches Err(ApiError::Auth(AuthError::InvalidCredentials))
                    } else if ed25519_strict_accepts(b@, encode_utf8(challenge_text(n@)), sig) {
                        r is Ok
                    } else {
                        r matches Err(ApiError::Auth(AuthError::InvalidCredentials))
                    },
                },
            },
        },
{
    let n = match nonce {
        Some(n) => n,
        None => {
            return Err(ApiError::Auth(AuthError::InvalidCredentials));
        },
    };
    let message = build_challenge_message(n.as_str());
    let signature = match base64_decode(signed_message.as_bytes()) {
        Some(s) => s,
        None => {
            return Err(ApiError::BadRequest(String::from_str("Invalid base64 signature")));
        },
    };
    match verify_signature(public_key, message.as_str().as_bytes(), signature.as_slice()) {
        Ok(()) => Ok(()),
        Err(_) => Err(ApiError::Auth(AuthError::InvalidCredentials)),
    }
}

/// The 16 bytes of a UUID, most significant first.
pub open spec fn uuid_bytes(id: u128) -> Seq<u8> {
    Seq::new(16, |k: int| ((id >> ((120 - 8 * k) as u128)) & 0xff) as u8)
}

/// The hyphenated lowercase text of a UUID: 8-4-4-4-12 hexadecimal digits.
pub open spec fn uuid_hyphenated(id: u128) -> Seq<char> {
    let h = hex_text(uuid_bytes(id));
    h.subrange(0, 8) + seq!['-'] + h.subrange(8, 12) + seq!['-'] + h.subrange(12, 16) + seq!['-']
        + h.subrange(16, 20) + seq!['-'] + h.subrange(20, 32)
}

/// `uuid::Uuid::from_u128(id).to_string()`: the hyphenated lowercase form.
#[verifier::external_body]
fn uuid_text(id: u128) -> (r: String)
    ensures
        r@ == uuid_hyphenated(id),
{
    uuid::Uuid::from_u128(id).to_string()
}

proof fn lemma_hex_text_len(bytes: Seq<u8>)
    ensures
        hex_text(bytes).len() == 2 * bytes.len(),
    decreases bytes.len(),
{
    if bytes.len() > 0 {
        lemma_hex_text_len(bytes.drop_last());
    }
}

/// The first eight characters of the text of a UUID.
fn uuid_prefix(id: u128) -> (r: String)
    ensures
        r@ == uuid_hyphenated(id).subrange(0, 8),
{
    let t = uuid_text(id);
    proof {
        lemma_hex_text_len(uuid_bytes(id));
    }
    let cs = chars_of(t.as_str());
    let mut r = String::new();
    let mut i: usize = 0;
    while i < 8
        invariant
            i <= 8,
            cs@ == uuid_hyphenated(id),
            cs@.len() == 36,
            r@ == cs@.subrange(0, i as int),
        decreases 8 - i,
    {
        crate::text::push_char(&mut r, cs[i]);
        proof {
            assert(cs@.subrange(0, i as int).push(cs@[i as int]) =~= cs@.subrange(0, i + 1));
        }
        i = i + 1;
    }
    r
}

/// The slug of the personal organization of a new user: the slug of the
/// display name, `-`, and the first eight characters of the user's id.
pub fn organization_slug(display_name: &str, user_id: u128) -> (r: String)
    ensures
        r@ == slug_of(display_name@) + "-"@ + uuid_hyphenated(user_id).subrange(0, 8),
{
    let mut r = slugify(display_name);
    r.append("-");
    let p = uuid_prefix(user_id);
    r.append(p.as_str());
    r
}

/// The slug of the organization of a new wallet user: `wallet-` and the first
/// eight characters of the user's id.
pub fn wallet_organization_slug(user_id: u128) -> (r: String)
    ensures
        r@ == "wallet-"@ + uuid_hyphenated(user_id).subrange(0, 8),
{
    let mut r = String::from_str("wallet-");
    let p = uuid_prefix(user_id);
    r.append(p.as_str());
    r
}

/// The name of a user's personal organization.
pub fn organization_name(display_name: &str) -> (r: String)
    ensures
        r@ == display_name@ + "'s Organization"@,
{
    let mut r = String::from_str(display_name);
    r.append("'s Organization");
    r
}

/// The characters of the first `n` bytes of `s`.
pub open spec fn byte_prefix(s: &str, n: int) -> Seq<char> {
    decode_utf8(s.spec_bytes().subrange(0, n))
}

/// The email of a new wallet user: `wallet-`, the first twelve bytes of the
/// key, `@astinel.io`.
pub fn wallet_user_email(public_key: &str) -> (r: String)
    requires
        is_char_boundary(public_key.spec_bytes(), 12),
    ensures
        r@ == "wallet-"@ + byte_prefix(public_key, 12) + "@astinel.io"@,
{
    let (head, _) = public_key.split_at(12);
    proof {
        vstd::utf8::encode_utf8_decode_utf8(head@);
    }
    let mut r = String::from_str("wallet-");
    r.append(head);
    r.append("@astinel.io");
    r
}

/// The display name of a new wallet user: `Wallet ` and the first eight bytes
/// of the key.
pub fn wallet_display_name(public_key: &str) -> (r: String)
    requires
        is_char_boundary(public_key.spec_bytes(), 8),
    ensures
        r@ == "Wallet "@ + byte_prefix(public_key, 8),
{
    let (head, _) = public_key.split_at(8);
    proof {
        vstd::utf8::encode_utf8_decode_utf8(head@);
    }
    let mut r = String::from_str("Wallet ");
    r.append(head);
    r
}

} // verus!
