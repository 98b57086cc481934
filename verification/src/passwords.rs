use vstd::prelude::*;
use argon2::password_hash::rand_core::OsRng;
use argon2::password_hash::{Error, Salt, SaltString};
use argon2::{Argon2, PasswordHash, PasswordHasher, PasswordVerifier};

verus! {

/// `password_hash::Error`, the error of argon2's hashing, carried as it is.
#[verifier::external_type_specification]
#[verifier::external_body]
pub struct ExPasswordHashError(Error);

/// `PasswordHash`, a parsed PHC string, held inside `ParsedPhc`.
#[verifier::external_type_specification]
#[verifier::external_body]
pub struct ExPasswordHash<'a>(PasswordHash<'a>);

/// The PHC string of the Argon2 hash of `password` (its UTF-8 bytes) with
/// the B64-encoded `salt`, Argon2 in its default configuration; `None`
/// where the salt is refused or the hashing fails.
pub uninterp spec fn argon2_hash(password: Seq<char>, salt: Seq<char>) -> Option<Seq<char>>;

/// The text of a successful result.
pub open spec fn ok_text(r: Result<String, Error>) -> Option<Seq<char>> {
    match r {
        Ok(s) => Some(s@),
        Err(_) => None,
    }
}

/// Whether `PasswordHash::new` accepts `phc` as a PHC string.
pub uninterp spec fn phc_parses(phc: Seq<char>) -> bool;

/// Whether Argon2 with its default configuration verifies `password` (taken
/// as its UTF-8 bytes) against the password hash that the PHC string `phc`
/// holds.
pub uninterp spec fn argon2_accepts(password: Seq<char>, phc: Seq<char>) -> bool;

/// The start of every PHC string that Argon2 in its default configuration
/// writes: the algorithm, the version and the parameters.
pub open spec fn default_phc_prefix() -> Seq<char> {
    "$argon2id$v=19$m=19456,t=2,p=1$"@
}

/// A random salt in B64: `SaltString::generate` with the operating
/// system's random number generator, as text. Its value is random; stated is
/// what the source shows of every outcome: it encodes 16 bytes, so it has 22
/// characters, and Argon2 in its default configuration hashes any password
/// of fewer than 2^32 bytes (here: of at most 2^30 - 1 characters) with it,
/// since hashing fails only for a salt that does not decode, one of fewer than
/// 8 bytes, or a longer password.
#[verifier::external_body]
pub(crate) fn generate_salt() -> (r: String)
    ensures
        r@.len() == 22,
        forall|p: Seq<char>| p.len() <= 0x3FFF_FFFF ==> (#[trigger] argon2_hash(p, r@)) is Some,
{
    SaltString::generate(&mut OsRng).as_str().to_owned()
}

/// Hashes `password` with Argon2 in its default configuration (Argon2id,
/// version 0x13, the crate's default parameters) and `salt`, by
/// `PasswordHasher::hash_password`, and gives the hash as a PHC string
/// (`PasswordHash`'s `Display`). The salt is taken from its B64 text by
/// `Salt::from_b64`; a salt that it refuses is that function's error. The
/// result is named by `argon2_hash`. Stated besides is what the crate's
/// source shows of every success: the string parses back as a PHC string,
/// and `verify_password` accepts the same password against it, since it
/// recomputes the hash with the salt and parameters that the string records
/// and compares the outputs; and its shape, as `Display` writes it: the
/// default prefix, the salt as given, `$`, and the 32-byte output in B64
/// (43 characters).
#[verifier::external_body]
pub(crate) fn hash_password(password: &String, salt: &String) -> (r: Result<String, Error>)
    ensures
        ok_text(r) == argon2_hash(password@, salt@),
        r matches Ok(phc) ==> phc_parses(phc@) && argon2_accepts(password@, phc@),
        r matches Ok(phc) ==> (phc@.len() == default_phc_prefix().len() + salt@.len() + 44
            && phc@.take(default_phc_prefix().len() as int) == default_phc_prefix()
            && phc@.subrange(default_phc_prefix().len() as int, (default_phc_prefix().len() + salt@.len()) as int) == salt@
            && phc@[(default_phc_prefix().len() + salt@.len()) as int] == '$'),
{
    let salt = match Salt::from_b64(salt.as_str()) {
        Ok(salt) => salt,
        Err(e) => return Err(e),
    };
    match Argon2::default().hash_password(password.as_bytes(), salt) {
        Ok(hash) => Ok(hash.to_string()),
        Err(e) => Err(e),
    }
}

/// A PHC string together with the `PasswordHash` that was parsed from it.
/// Only `parse_phc` makes one, so the hash is always the string's parse.
pub struct ParsedPhc<'a> {
    text: &'a String,
    hash: PasswordHash<'a>,
}

impl<'a> ParsedPhc<'a> {
    /// The PHC string that was parsed.
    pub closed spec fn text(&self) -> Seq<char> {
        self.text@
    }
}

/// Parses a PHC string with `PasswordHash::new`; `None` where it fails.
#[verifier::external_body]
pub(crate) fn parse_phc<'a>(phc: &'a String) -> (r: Option<ParsedPhc<'a>>)
    ensures
        r is Some <==> phc_parses(phc@),
        r matches Some(p) ==> p.text() == phc@,
{
    match PasswordHash::new(phc.as_str()) {
        Ok(hash) => Some(ParsedPhc { text: phc, hash }),
        Err(_) => None,
    }
}

/// Checks `password` against a parsed password hash with Argon2 in its
/// default configuration (`PasswordVerifier::verify_password`); true where
/// it answers `Ok`.
#[verifier::external_body]
pub(crate) fn verify_password(password: &String, phc: &ParsedPhc) -> (r: bool)
    ensures
        r == argon2_accepts(password@, phc.text()),
{
    Argon2::default().verify_password(password.as_bytes(), &phc.hash).is_ok()
}

} // verus!
