//! HTTP Basic credential handling: decoding the `Authorization` header
//! and verifying a password against a stored hash with constant effort.
//!
//! The verifier never short-circuits on an unknown username: when the
//! lookup finds no record it substitutes a fixed decoy hash and runs the
//! full memory-hard verification anyway, so that latency does not reveal
//! whether a username exists, and both failure paths surface the same
//! `InvalidCredentials` error.

use argon2::PasswordVerifier;
use vstd::prelude::*;
use vstd::utf8::{decode_utf8, valid_utf8};
use crate::domain::text::find_char_spec;
use crate::domain::text::find_char;
use crate::errors::AuthError;

verus! {

/// A username/secret pair decoded from a Basic Authorization header.
/// Ephemeral: lives only for the request being authenticated.
#[derive(Debug, Clone)]
pub struct Credentials {
    pub username: String,
    pub password: String,
}

/// The well-formedness and decoding of a standard-alphabet base64
/// payload, as `base64::decode_config` with `base64::STANDARD` computes
/// it: `None` where that call rejects the input.
pub uninterp spec fn base64_decoded(s: Seq<char>) -> Option<Seq<u8>>;

/// Relies on `base64::decode_config` with the `STANDARD` config: the
/// result is a function of the input alone; the call succeeds exactly on
/// well-formed standard base64 with `=` padding.
#[verifier::external_body]
fn base64_decode(s: &str) -> (r: Option<Vec<u8>>)
    ensures
        match r {
            Some(v) => base64_decoded(s@) == Some(v@),
            None => base64_decoded(s@) is None,
        },
{
    base64::decode_config(s, base64::STANDARD).ok()
}

/// Relies on `String::from_utf8`: it succeeds exactly on valid UTF-8 and
/// returns its decoding, which vstd's `valid_utf8` and `decode_utf8`
/// describe.
#[verifier::external_body]
fn utf8_to_string(bytes: Vec<u8>) -> (r: Option<String>)
    ensures
        r is Some <==> valid_utf8(bytes@),
        r matches Some(s) ==> s@ == decode_utf8(bytes@),
{
    String::from_utf8(bytes).ok()
}

/// Whether a PHC-format hash string parses, as `PasswordHash::new`
/// decides it: a function of the string alone.
pub uninterp spec fn phc_valid(s: Seq<char>) -> bool;

/// Whether a candidate password verifies against a PHC hash string under
/// Argon2's default verifier: a function of the two strings alone.
pub uninterp spec fn password_matches(phc: Seq<char>, candidate: Seq<char>) -> bool;

/// Outcome of one full hash verification attempt.
pub enum HashCheck {
    Match,
    Mismatch,
    BadHash,
}

/// Relies on `argon2::PasswordHash::new` followed by
/// `Argon2::default().verify_password`: `new` parses the PHC string
/// (`BadHash` where it refuses), and `verify_password` recomputes the
/// memory-hard hash of the candidate under the parameters and salt of the
/// parsed string and compares. Both results depend on the two strings
/// alone, which is what `phc_valid` and `password_matches` name. The two
/// calls stay in one wrapper because the parsed hash borrows the string
/// and carries no view of its own.
#[verifier::external_body]
fn run_hash_verification(expected_phc: &str, candidate: &str) -> (r: HashCheck)
    ensures
        match r {
            HashCheck::BadHash => !phc_valid(expected_phc@),
            HashCheck::Match => phc_valid(expected_phc@) && password_matches(
                expected_phc@,
                candidate@,
            ),
            HashCheck::Mismatch => phc_valid(expected_phc@) && !password_matches(
                expected_phc@,
                candidate@,
            ),
        },
{
    match argon2::PasswordHash::new(expected_phc) {
        Err(_) => HashCheck::BadHash,
        Ok(parsed) => {
            match argon2::Argon2::default().verify_password(candidate.as_bytes(), &parsed) {
                Ok(()) => HashCheck::Match,
                Err(_) => HashCheck::Mismatch,
            }
        },
    }
}

/// The fixed decoy hash: a valid PHC string for an unguessable constant,
/// verified against whenever a username has no stored record.
pub open spec fn decoy_hash_chars() -> Seq<char> {
    "$argon2id$v=19$m=15000,t=2,p=1$gZiV/M1gPc22ElAH/Jh1Hw$CWOrkoo7oJBQ/iyh7uJ0LO2aLEfrHwTWllSAxT0zRno"@
}

/// The process-wide decoy hash constant.
pub fn decoy_hash() -> (s: String)
    ensures
        s@ == decoy_hash_chars(),
{
    String::from_str(
        "$argon2id$v=19$m=15000,t=2,p=1$gZiV/M1gPc22ElAH/Jh1Hw$CWOrkoo7oJBQ/iyh7uJ0LO2aLEfrHwTWllSAxT0zRno",
    )
}

/// The decoded text starts with the literal scheme prefix `"Basic "`.
pub open spec fn has_basic_prefix(s: Seq<char>) -> bool {
    s.len() >= 6 && s[0] == 'B' && s[1] == 'a' && s[2] == 's' && s[3] == 'i' && s[4] == 'c'
        && s[5] == ' '
}

/// What decoding a Basic Authorization header yields: the username/secret
/// pair, or the exact cause of rejection. Splitting happens at the first
/// `:` only, so passwords may contain `:`; text before the first `:`
/// becomes the username, and a header with no `:` at all is refused for
/// want of a password.
pub open spec fn basic_auth_spec(header: Option<Seq<u8>>) -> Result<
    (Seq<char>, Seq<char>),
    Seq<char>,
> {
    match header {
        None => Err("The `Authorization` header was missing."@),
        Some(bytes) => if !valid_utf8(bytes) {
            Err("The `Authorization` header was not a valid UTF-8 string."@)
        } else {
            let s = decode_utf8(bytes);
            if !has_basic_prefix(s) {
                Err("The authorization scheme was not `Basic`."@)
            } else {
                let payload = s.subrange(6, s.len() as int);
                match base64_decoded(payload) {
                    None => Err("Failed to base64-decode `Basic` credentials."@),
                    Some(d) => if !valid_utf8(d) {
                        Err("The decoded credential string is not valid UTF-8"@)
                    } else {
                        let creds = decode_utf8(d);
                        match find_char_spec(creds, ':') {
                            None => Err("A password must be provided in `Basic` auth"@),
                            Some(i) => Ok(
                                (creds.subrange(0, i), creds.subrange(i + 1, creds.len() as int)),
                            ),
                        }
                    },
                }
            }
        },
    }
}

/// Decodes an `Authorization: Basic <base64(username:password)>` header
/// into credentials, as `basic_auth_spec` describes; every malformation
/// is a `BadRequest` whose cause names the failing step.
pub fn basic_auth(header_value: Option<&[u8]>) -> (r: Result<Credentials, AuthError>)
    ensures
        match basic_auth_spec(header_value.deep_view()) {
            Ok(p) => (r matches Ok(c) && c.username@ == p.0 && c.password@ == p.1),
            Err(m) => (r matches Err(e) && e matches AuthError::BadRequest(c) && c@ == m),
        },
{
    let bytes = match header_value {
        None => {
            return Err(
                AuthError::BadRequest(String::from_str("The `Authorization` header was missing.")),
            );
        },
        Some(b) => b,
    };
    proof {
        assert(bytes.deep_view() =~= bytes@);
    }
    let owned = vstd::slice::slice_to_vec(bytes);
    let header_text = match utf8_to_string(owned) {
        None => {
            return Err(
                AuthError::BadRequest(
                    String::from_str("The `Authorization` header was not a valid UTF-8 string."),
                ),
            );
        },
        Some(s) => s,
    };
    let h = header_text.as_str();
    let n = h.unicode_len();
    if n < 6 || h.get_char(0) != 'B' || h.get_char(1) != 'a' || h.get_char(2) != 's' || h.get_char(
        3,
    ) != 'i' || h.get_char(4) != 'c' || h.get_char(5) != ' ' {
        return Err(
            AuthError::BadRequest(String::from_str("The authorization scheme was not `Basic`.")),
        );
    }
    let payload = h.substring_char(6, n);
    let decoded = match base64_decode(payload) {
        None => {
            return Err(
                AuthError::BadRequest(
                    String::from_str("Failed to base64-decode `Basic` credentials."),
                ),
            );
        },
        Some(d) => d,
    };
    let creds_text = match utf8_to_string(decoded) {
        None => {
            return Err(
                AuthError::BadRequest(
                    String::from_str("The decoded credential string is not valid UTF-8"),
                ),
            );
        },
        Some(s) => s,
    };
    let c = creds_text.as_str();
    let colon = match find_char(c, ':') {
        None => {
            return Err(
                AuthError::BadRequest(
                    String::from_str("A password must be provided in `Basic` auth"),
                ),
            );
        },
        Some(i) => i,
    };
    let total = c.unicode_len();
    let username = String::from_str(c.substring_char(0, colon));
    let password = String::from_str(c.substring_char(colon + 1, total));
    Ok(Credentials { username, password })
}

/// The hash actually verified against: the stored one where the lookup
/// found a record, the fixed decoy otherwise.
pub open spec fn selected_hash(stored: Option<(i64, String)>) -> Seq<char> {
    match stored {
        None => decoy_hash_chars(),
        Some(p) => p.1@,
    }
}

/// Spec-level classification of a credential-verification attempt.
pub enum AuthOutcome {
    /// A real record exists and the password verified: its user id.
    Granted(i64),
    /// Unknown username or wrong password — one indistinguishable case.
    RejectedInvalidCredentials,
    /// Lookup fault or corrupt stored hash.
    Faulted,
}

/// How a verification attempt must end: one application of
/// `password_matches` to the selected hash decides every path, and only a
/// real record together with a matching password grants access.
pub open spec fn validate_class(
    password: Seq<char>,
    lookup: Result<Option<(i64, String)>, String>,
) -> AuthOutcome {
    match lookup {
        Err(_) => AuthOutcome::Faulted,
        Ok(stored) => {
            let sel = selected_hash(stored);
            if !phc_valid(sel) {
                AuthOutcome::Faulted
            } else if !password_matches(sel, password) {
                AuthOutcome::RejectedInvalidCredentials
            } else {
                match stored {
                    Some(p) => AuthOutcome::Granted(p.0),
                    None => AuthOutcome::RejectedInvalidCredentials,
                }
            }
        },
    }
}

/// Runs the full hash verification of a candidate secret against a PHC
/// hash string. A malformed stored hash is an `UnexpectedError`; a
/// failed comparison is `InvalidCredentials`.
pub fn verify_password_hash(expected_password_hash: String, password_candidate: String) -> (r:
    Result<(), AuthError>)
    ensures
        !phc_valid(expected_password_hash@) ==> (r matches Err(e) && e matches
            AuthError::UnexpectedError(m) && m@ == "Failed to parse hash in PHC string format."@),
        phc_valid(expected_password_hash@) && password_matches(
            expected_password_hash@,
            password_candidate@,
        ) ==> r is Ok,
        phc_valid(expected_password_hash@) && !password_matches(
            expected_password_hash@,
            password_candidate@,
        ) ==> (r matches Err(e) && e matches AuthError::InvalidCredentials(m) && m@
            == "Invalid password"@),
{
    match run_hash_verification(expected_password_hash.as_str(), password_candidate.as_str()) {
        HashCheck::BadHash => Err(
            AuthError::UnexpectedError(
                String::from_str("Failed to parse hash in PHC string format."),
            ),
        ),
        HashCheck::Match => Ok(()),
        HashCheck::Mismatch => Err(
            AuthError::InvalidCredentials(String::from_str("Invalid password")),
        ),
    }
}

/// Resolves credentials against the result of the username lookup. The
/// lookup itself is the caller's one read of the store; whatever it
/// returned, this function performs exactly one full hash verification —
/// against the stored hash when a record exists, against the decoy hash
/// when none does — and only then refuses unknown usernames, with the
/// same `InvalidCredentials` error as a wrong password.
pub fn validate_credentials(
    credentials: Credentials,
    lookup: Result<Option<(i64, String)>, String>,
) -> (r: Result<i64, AuthError>)
    ensures
        match validate_class(credentials.password@, lookup) {
            AuthOutcome::Granted(id) => r == Ok::<i64, AuthError>(id),
            AuthOutcome::RejectedInvalidCredentials => (r matches Err(e) && e matches
                AuthError::InvalidCredentials(_)),
            AuthOutcome::Faulted => (r matches Err(e) && e matches AuthError::UnexpectedError(_)),
        },
        (lookup matches Err(c) ==> (r matches Err(e) && e matches AuthError::UnexpectedError(m)
            && m@ == c@)),
{
    let password = credentials.password;
    match lookup {
        Err(cause) => Err(AuthError::UnexpectedError(cause)),
        Ok(stored) => {
            let (user_id, password_hash): (Option<i64>, String) = match stored {
                Some(record) => (Some(record.0), record.1),
                None => (None, decoy_hash()),
            };
            match verify_password_hash(password_hash, password) {
                Err(e) => Err(e),
                Ok(()) => match user_id {
                    Some(id) => Ok(id),
                    None => Err(
                        AuthError::InvalidCredentials(String::from_str("Unknown username.")),
                    ),
                },
            }
        },
    }
}

/// Success law: a stored record whose hash is well formed, together with
/// the password that verifies against it, yields exactly the stored user
/// id — nothing else grants access.
pub proof fn lemma_matching_password_grants_stored_id(
    password: Seq<char>,
    uid: i64,
    hash: String,
)
    requires
        phc_valid(hash@),
        password_matches(hash@, password),
    ensures
        validate_class(password, Ok(Some((uid, hash)))) == AuthOutcome::Granted(uid),
{
}

/// Rejection law: a stored record whose hash is well formed, under a
/// password that does not verify against it, is rejected as
/// `InvalidCredentials`; the stored user id never escapes.
pub proof fn lemma_wrong_password_rejected(password: Seq<char>, uid: i64, hash: String)
    requires
        phc_valid(hash@),
        !password_matches(hash@, password),
    ensures
        validate_class(password, Ok(Some((uid, hash))))
            == AuthOutcome::RejectedInvalidCredentials,
{
}

/// Anti-enumeration law: with a well-formed decoy and a well-formed
/// stored hash, a nonexistent username — under any password — ends in
/// exactly the same class of rejection as a wrong password for an
/// existing user, so neither the code path nor the error distinguishes
/// them.
pub proof fn lemma_unknown_user_rejected_like_wrong_password(
    any_password: Seq<char>,
    wrong_password: Seq<char>,
    id: i64,
    hash: String,
)
    requires
        phc_valid(decoy_hash_chars()),
        phc_valid(hash@),
        !password_matches(hash@, wrong_password),
    ensures
        validate_class(any_password, Ok(None)) == AuthOutcome::RejectedInvalidCredentials,
        validate_class(wrong_password, Ok(Some((id, hash))))
            == AuthOutcome::RejectedInvalidCredentials,
{
}

/// Constant-effort law: the decision for every lookup outcome is one
/// application of `password_matches` to `selected_hash(stored)` — the
/// decoy path evaluates the very predicate the real path evaluates — yet
/// the decoy can never grant access: whatever the predicate says of the
/// decoy, an absent record is rejected as `InvalidCredentials`.
pub proof fn lemma_decoy_never_grants(password: Seq<char>)
    ensures
        !(validate_class(password, Ok(None)) matches AuthOutcome::Granted(_)),
        phc_valid(decoy_hash_chars()) ==> validate_class(password, Ok(None))
            == AuthOutcome::RejectedInvalidCredentials,
{
}

} // verus!
