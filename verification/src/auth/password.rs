//! Password hashing with Argon2 (default parameters, random salt) in the PHC
//! string format, and checking a password against such a hash.
use vstd::prelude::*;
use argon2::password_hash::{Error as PasswordHashError, PasswordHash, SaltString};
use argon2::{PasswordHasher, PasswordVerifier};
use crate::text::has_prefix;
use vstd::string::StringSliceAdditionalSpecFns;

verus! {

#[verifier::external_type_specification]
#[verifier::external_body]
pub struct ExPasswordHashError(PasswordHashError);

#[verifier::external_type_specification]
#[verifier::external_body]
pub struct ExSaltString(SaltString);

#[verifier::external_type_specification]
#[verifier::external_body]
pub struct ExPasswordHash<'a>(PasswordHash<'a>);

/// Whether `PasswordHash::new` accepts a string as a PHC hash.
pub uninterp spec fn phc_parses(hash: Seq<char>) -> bool;

/// Whether `Argon2::default().verify_password` accepts `password` against the
/// PHC string `phc` once `PasswordHash::new` has parsed it: the password, hashed
/// with the algorithm, version, parameters and salt the string records, gives
/// the output it records.
pub uninterp spec fn argon2_verifies(password: Seq<u8>, phc: Seq<char>) -> bool;

/// A salt drawn by `SaltString::generate` from the operating system's random
/// source: sixteen random bytes in B64 (22 characters). The field is private
/// and `random_salt` is the one place that builds a value, so every
/// `FreshSalt` holds such a salt.
struct FreshSalt {
    salt: SaltString,
}

/// A fresh salt (`SaltString::generate` with `OsRng`). Nothing is stated of
/// which bytes are drawn.
#[verifier::external_body]
fn random_salt() -> FreshSalt {
    FreshSalt { salt: SaltString::generate(&mut rand::rngs::OsRng) }
}

/// The PHC string of `password` hashed with `Argon2::default()` and `salt`
/// (`PasswordHasher::hash_password`, then `to_string`): it names the Argon2id
/// algorithm and version 19, the defaults. With a generated salt (sixteen
/// bytes, which decode and lie within the salt bounds) and the default
/// parameters, the source fails only for a password longer than
/// `0xFFFF_FFFF` bytes (`Error::PwdTooLong`). The rest of the string
/// (parameters, salt, output) is not stated, except that the string parses
/// back as a PHC hash and that `password` verifies against it: verification
/// recomputes the hash from the algorithm, version, parameters and salt the
/// string records, which are the ones hashing used.
#[verifier::external_body]
fn argon2_hash(password: &[u8], salt: &FreshSalt) -> (r: Result<String, PasswordHashError>)
    ensures
        r matches Ok(h) ==> has_prefix(h@, "$argon2id$v=19$"@),
        r matches Ok(h) ==> phc_parses(h@) && argon2_verifies(password@, h@),
        password@.len() <= 0xFFFF_FFFF ==> r is Ok,
{
    match argon2::Argon2::default().hash_password(password, &salt.salt) {
        Ok(h) => Ok(h.to_string()),
        Err(e) => Err(e),
    }
}

/// A PHC string parsed by `PasswordHash::new`, kept with the text it was
/// parsed from. The fields are private and `parse_phc` is the one place that
/// builds a value, so `hash` is always what `text` parses to.
struct ParsedPhc<'a> {
    text: &'a str,
    hash: PasswordHash<'a>,
}

/// `PasswordHash::new`: parses a PHC string. The source rejects the empty
/// string; otherwise whether it parses is named `phc_parses`.
#[verifier::external_body]
fn parse_phc<'a>(hash: &'a str) -> (r: Result<ParsedPhc<'a>, PasswordHashError>)
    ensures
        r is Ok == phc_parses(hash@),
        hash@.len() == 0 ==> r is Err,
        r matches Ok(p) ==> p.text@ == hash@,
{
    match PasswordHash::new(hash) {
        Ok(h) => Ok(ParsedPhc { text: hash, hash: h }),
        Err(e) => Err(e),
    }
}

/// Whether `password` hashes, with the algorithm, version, parameters and salt
/// of the parsed hash, to the output it holds
/// (`Argon2::default().verify_password` succeeds): `argon2_verifies` of the
/// password and the parsed text.
#[verifier::external_body]
fn argon2_accepts(password: &[u8], parsed: &ParsedPhc) -> (r: bool)
    ensures
        r == argon2_verifies(password@, parsed.text@),
{
    argon2::Argon2::default().verify_password(password, &parsed.hash).is_ok()
}

/// What checking `password` against the text `hash` gives: nothing when the
/// text is no PHC hash, else whether the password verifies against it.
pub open spec fn verify_outcome(password: Seq<u8>, hash: Seq<char>) -> Option<bool> {
    if phc_parses(hash) {
        Some(argon2_verifies(password, hash))
    } else {
        None
    }
}

/// Hashes and checks passwords.
pub struct PasswordService;

impl PasswordService {
    /// Hashes a password with a fresh random salt, giving an Argon2id PHC string
    /// that parses and against which the password verifies; it succeeds on every
    /// password of at most `0xFFFF_FFFF` bytes.
    pub fn hash(password: &str) -> (r: Result<String, PasswordHashError>)
        ensures
            r matches Ok(h) ==> has_prefix(h@, "$argon2id$v=19$"@),
            r matches Ok(h) ==> phc_parses(h@) && argon2_verifies(password.spec_bytes(), h@),
            password.spec_bytes().len() <= 0xFFFF_FFFF ==> r is Ok,
    {
        let salt = random_salt();
        argon2_hash(password.as_bytes(), &salt)
    }

    /// Checks a password against a PHC hash: an error when the hash does not
    /// parse, else whether the password matches it.
    pub fn verify(password: &str, hash: &str) -> (r: Result<bool, PasswordHashError>)
        ensures
            r is Ok == phc_parses(hash@),
            hash@.len() == 0 ==> r is Err,
            match verify_outcome(password.spec_bytes(), hash@) {
                Some(b) => r matches Ok(x) && x == b,
                None => r is Err,
            },
    {
        match parse_phc(hash) {
            Ok(parsed) => Ok(argon2_accepts(password.as_bytes(), &parsed)),
            Err(e) => Err(e),
        }
    }
}

} // verus!
