//! Authentication of callers by a bearer token signed with Ed25519.

use vstd::prelude::*;
use vstd::string::*;

use jwt_simple::algorithms::{EdDSAPublicKeyLike, Ed25519PublicKey};
use jwt_simple::common::VerificationOptions;
use jwt_simple::prelude::{Clock, UnixTimeStamp};

use crate::status::{Code, Status};
use crate::text::chars_of;
use crate::time::Timestamp;

verus! {

#[verifier::external_type_specification]
#[verifier::external_body]
pub struct ExAnyhowError(anyhow::Error);

/// The bytes of the Ed25519 public key that jwt-simple reads from a PEM text,
/// if it reads one.
pub uninterp spec fn ed25519_pem_key(pem: Seq<char>) -> Option<Seq<u8>>;

/// Calls `jwt_simple::algorithms::Ed25519PublicKey::from_pem` and reads the key
/// back as its bytes (`Ed25519PublicKey::to_bytes`). Claims that whether a key
/// comes back, and which, depends on the PEM text alone.
#[verifier::external_body]
fn ed25519_public_key_from_pem(pem: &str) -> (r: Result<Vec<u8>, anyhow::Error>)
    ensures
        r is Ok <==> ed25519_pem_key(pem@) is Some,
        r matches Ok(key) ==> ed25519_pem_key(pem@) == Some(key@),
{
    match Ed25519PublicKey::from_pem(pem) {
        Ok(key) => Ok(key.to_bytes()),
        Err(e) => Err(e),
    }
}

/// What jwt-simple's Ed25519 token check makes of a token, with the public key
/// given by its bytes, one allowed issuer, one allowed audience and the
/// current time given in clock ticks: whether it accepts the token, whether
/// the token's signature is valid under the key, the token's issuer claim,
/// its audience claims, its custom claims as JSON text, and the text of its
/// refusal.
pub uninterp spec fn ed25519_jwt_check(
    key: Seq<u8>,
    token: Seq<char>,
    issuer: Seq<char>,
    audience: Seq<char>,
    now: u64,
) -> (bool, bool, Option<Seq<char>>, Set<Seq<char>>, Seq<char>, Seq<char>);

/// The latest time, in clock ticks, that jwt-simple can check a token at: it
/// adds its default time tolerance of 900 seconds (900 * 2^32 ticks) to the
/// time without an overflow check.
pub open spec fn jwt_time_limit() -> u64 {
    18446740208238985215
}

/// The text of the check's refusal of the token.
pub open spec fn jwt_refusal(key: Seq<u8>, token: Seq<char>, issuer: Seq<char>, audience: Seq<char>, now: u64) -> Seq<char> {
    ed25519_jwt_check(key, token, issuer, audience, now).5
}

/// Whether the check accepts the token.
pub open spec fn jwt_accepted(key: Seq<u8>, token: Seq<char>, issuer: Seq<char>, audience: Seq<char>, now: u64) -> bool {
    ed25519_jwt_check(key, token, issuer, audience, now).0
}

/// Whether the token's signature is valid under the key.
pub open spec fn jwt_signature_valid(key: Seq<u8>, token: Seq<char>, issuer: Seq<char>, audience: Seq<char>, now: u64) -> bool {
    ed25519_jwt_check(key, token, issuer, audience, now).1
}

/// The issuer claim of the token.
pub open spec fn jwt_issuer(key: Seq<u8>, token: Seq<char>, issuer: Seq<char>, audience: Seq<char>, now: u64) -> Option<Seq<char>> {
    ed25519_jwt_check(key, token, issuer, audience, now).2
}

/// The audience claims of the token (one, or a set).
pub open spec fn jwt_audiences(key: Seq<u8>, token: Seq<char>, issuer: Seq<char>, audience: Seq<char>, now: u64) -> Set<Seq<char>> {
    ed25519_jwt_check(key, token, issuer, audience, now).3
}

/// The custom claims of the token as JSON text.
pub open spec fn jwt_claims(key: Seq<u8>, token: Seq<char>, issuer: Seq<char>, audience: Seq<char>, now: u64) -> Seq<char> {
    ed25519_jwt_check(key, token, issuer, audience, now).4
}

/// Calls `EdDSAPublicKeyLike::verify_token` with the public key read from its
/// bytes (`Ed25519PublicKey::from_bytes`), allowing exactly the given issuer
/// and audience, at the given time (`artificial_time`, in clock ticks), with
/// the custom claims read as a JSON value handed back as JSON text and a
/// refusal handed back as its message (`ToString`). Claims that the outcome
/// depends on these arguments alone, and what the source checks before it
/// accepts: a signature valid under the key, the allowed issuer, and the
/// allowed audience among the token's audiences. jwt-simple adds its time
/// tolerance to `now` unchecked, so `now` is bounded.
#[verifier::external_body]
fn ed25519_verify_token(key: &[u8], token: &str, issuer: &str, audience: &str, now: u64) -> (r: Result<String, String>)
    requires
        now <= jwt_time_limit(),
    ensures
        r is Ok <==> ed25519_jwt_check(key@, token@, issuer@, audience@, now).0,
        r is Ok ==> ed25519_jwt_check(key@, token@, issuer@, audience@, now).1,
        r is Ok ==> ed25519_jwt_check(key@, token@, issuer@, audience@, now).2 == Some(issuer@),
        r is Ok ==> ed25519_jwt_check(key@, token@, issuer@, audience@, now).3.contains(audience@),
        r matches Ok(claims) ==> claims@ == ed25519_jwt_check(key@, token@, issuer@, audience@, now).4,
        r matches Err(message) ==> message@ == ed25519_jwt_check(key@, token@, issuer@, audience@, now).5,
{
    let key = match Ed25519PublicKey::from_bytes(key) {
        Ok(key) => key,
        Err(e) => return Err(e.to_string()),
    };
    let mut issuers = std::collections::HashSet::new();
    issuers.insert(issuer.to_string());
    let mut audiences = std::collections::HashSet::new();
    audiences.insert(audience.to_string());
    let options = VerificationOptions { allowed_issuers: Some(issuers), allowed_audiences: Some(audiences), artificial_time: Some(UnixTimeStamp::from_ticks(now)), ..Default::default() };
    match key.verify_token::<serde_json::Value>(token, Some(options)) {
        Ok(claims) => Ok(claims.custom.to_string()),
        Err(e) => Err(e.to_string()),
    }
}

/// Calls `coarsetime::Clock::now_since_epoch` (jwt-simple's clock, which it
/// checks validity periods against when given no time) and reads it as clock
/// ticks. Nothing is claimed of the value: it is the current time.
#[verifier::external_body]
fn jwt_clock_ticks() -> (r: u64)
{
    Clock::now_since_epoch().as_ticks()
}

/// Calls `ToString::to_string` on a jwt-simple error: its message. Nothing is
/// claimed of the text.
#[verifier::external_body]
fn error_text(e: &anyhow::Error) -> (r: String)
{
    e.to_string()
}

/// Why a key could not be loaded or a token was refused.
#[derive(Debug)]
pub struct AuthError {
    pub message: String,
}

/// The key that callers' tokens must be signed with, held as the bytes of the
/// Ed25519 public key.
#[derive(Debug)]
pub struct DecodingKey(Vec<u8>);

/// A caller, as the claims of an accepted token describe it.
#[derive(Clone, Debug)]
pub struct User {
    pub id: i64,
    pub ws_id: i64,
    pub fullname: String,
    pub email: String,
    pub password_hash: Option<String>,
    pub created_at: Timestamp,
}

/// The issuer that callers' tokens must name.
pub open spec fn token_issuer() -> Seq<char> {
    "chat_server"@
}

/// The audience that callers' tokens must name.
pub open spec fn token_audience() -> Seq<char> {
    "chat_web"@
}

/// Whether a token is admitted under a key at a time: jwt-simple accepts it
/// for issuer `chat_server` and audience `chat_web`, so it is signed by the
/// key, issued by `chat_server` and meant for `chat_web`.
pub open spec fn admitted(key: Seq<u8>, token: Seq<char>, now: u64) -> bool {
    &&& jwt_accepted(key, token, token_issuer(), token_audience(), now)
    &&& jwt_signature_valid(key, token, token_issuer(), token_audience(), now)
    &&& jwt_issuer(key, token, token_issuer(), token_audience(), now) == Some(token_issuer())
    &&& jwt_audiences(key, token, token_issuer(), token_audience(), now).contains(token_audience())
}

/// The custom claims of a token, as the check reads them.
pub open spec fn admitted_claims(key: Seq<u8>, token: Seq<char>, now: u64) -> Seq<char> {
    jwt_claims(key, token, token_issuer(), token_audience(), now)
}

/// The text of the refusal of a token under a key at a time.
pub open spec fn refusal_text(key: Seq<u8>, token: Seq<char>, now: u64) -> Seq<char> {
    jwt_refusal(key, token, token_issuer(), token_audience(), now)
}

/// The text of the refusal when the clock reads a time past `jwt_time_limit`.
pub open spec fn clock_range_message() -> Seq<char> {
    "clock out of range"@
}

/// What checking a token under a key at a time gives: past the times
/// jwt-simple can check at, the clock refusal; else the token's claims when
/// the check accepts it, its refusal text when it does not.
pub open spec fn token_check_result(key: Seq<u8>, token: Seq<char>, now: u64) -> Result<Seq<char>, Seq<char>> {
    if now > jwt_time_limit() {
        Err(clock_range_message())
    } else if jwt_accepted(key, token, token_issuer(), token_audience(), now) {
        Ok(admitted_claims(key, token, now))
    } else {
        Err(refusal_text(key, token, now))
    }
}

/// Whether a token check reports an outcome: the claims, or a refusal with the
/// text.
pub open spec fn reports(r: Result<String, AuthError>, outcome: Result<Seq<char>, Seq<char>>) -> bool {
    match outcome {
        Ok(claims) => r matches Ok(c) && c@ == claims,
        Err(message) => r matches Err(e) && e.message@ == message,
    }
}

/// The text of an authorization header, if there is one.
pub open spec fn header_text(authorization: Option<&str>) -> Option<Seq<char>> {
    match authorization {
        Some(h) => Some(h@),
        None => None,
    }
}

/// What the decision on a call gives for its authorization header under a key
/// at a time: a refusal for a missing header or another scheme, else what
/// checking the bearer token gives.
pub open spec fn call_result(key: Seq<u8>, authorization: Option<Seq<char>>, now: u64) -> Result<Seq<char>, Seq<char>> {
    match authorization {
        None => Err(missing_token_message()),
        Some(h) => if has_bearer_prefix(h) {
            token_check_result(key, h.skip(bearer_prefix().len() as int), now)
        } else {
            Err(invalid_format_message())
        },
    }
}

/// Whether the answer to a call reports an outcome: the claims, or an
/// `Unauthenticated` refusal with the text.
pub open spec fn answers_call(r: Result<String, Status>, outcome: Result<Seq<char>, Seq<char>>) -> bool {
    match outcome {
        Ok(claims) => r matches Ok(c) && c@ == claims,
        Err(message) => r matches Err(s) && s.code == Code::Unauthenticated && s.message@ == message,
    }
}

/// The scheme word that an authorization header starts with.
pub open spec fn bearer_prefix() -> Seq<char> {
    seq!['B', 'e', 'a', 'r', 'e', 'r', ' ']
}

/// Whether an authorization header starts with the bearer scheme.
pub open spec fn has_bearer_prefix(header: Seq<char>) -> bool {
    header.len() >= bearer_prefix().len() && header.take(bearer_prefix().len() as int) == bearer_prefix()
}

/// The text of the refusal of a call without an authorization header.
pub open spec fn missing_token_message() -> Seq<char> {
    "missing token"@
}

/// The text of the refusal of an authorization header of another scheme.
pub open spec fn invalid_format_message() -> Seq<char> {
    "invalid token format"@
}

/// The token that an authorization header carries, or the refusal of the call:
/// a call without header is refused as missing a token, a header that does not
/// start with `Bearer ` as having an invalid format.
pub fn bearer_token(authorization: Option<&str>) -> (r: Result<String, Status>)
    ensures
        authorization is None ==> (r matches Err(s) && s.code == Code::Unauthenticated
            && s.message@ == missing_token_message()),
        authorization matches Some(h) ==> if has_bearer_prefix(h@) {
            r matches Ok(t) && t@ == h@.skip(bearer_prefix().len() as int)
        } else {
            r matches Err(s) && s.code == Code::Unauthenticated && s.message@ == invalid_format_message()
        },
{
    match authorization {
        None => Err(Status::unauthenticated("missing token")),
        Some(header) => {
            let chars = chars_of(header);
            let n: usize = chars.len();
            if n >= 7 && chars[0] == 'B' && chars[1] == 'e' && chars[2] == 'a' && chars[3] == 'r'
                && chars[4] == 'e' && chars[5] == 'r' && chars[6] == ' ' {
                assert(header@.take(7) =~= bearer_prefix());
                let token = header.substring_char(7, n).to_string();
                assert(token@ =~= header@.skip(7));
                Ok(token)
            } else {
                assert(!has_bearer_prefix(header@)) by {
                    if has_bearer_prefix(header@) {
                        assert(header@.take(7)[0] == 'B');
                        assert(header@.take(7)[1] == 'e');
                        assert(header@.take(7)[2] == 'a');
                        assert(header@.take(7)[3] == 'r');
                        assert(header@.take(7)[4] == 'e');
                        assert(header@.take(7)[5] == 'r');
                        assert(header@.take(7)[6] == ' ');
                    }
                }
                Err(Status::unauthenticated("invalid token format"))
            }
        },
    }
}

/// The answer to a call once its token has been checked: the caller's claims
/// when the token was accepted, else a refusal that carries the reason.
pub fn admission(checked: Result<String, AuthError>) -> (r: Result<String, Status>)
    ensures
        match checked {
            Ok(claims) => r matches Ok(c) && c == claims,
            Err(e) => r matches Err(s) && s.code == Code::Unauthenticated && s.message == e.message,
        },
{
    match checked {
        Ok(claims) => Ok(claims),
        Err(e) => Err(Status { code: Code::Unauthenticated, message: e.message }),
    }
}

impl DecodingKey {
    /// The bytes of the public key held.
    pub closed spec fn key_bytes(&self) -> Seq<u8> {
        self.0@
    }

    /// Reads the key from its PEM text.
    pub fn load(public_key: &str) -> (r: Result<DecodingKey, AuthError>)
        ensures
            r is Ok <==> ed25519_pem_key(public_key@) is Some,
            r matches Ok(k) ==> ed25519_pem_key(public_key@) == Some(k.key_bytes()),
    {
        match ed25519_public_key_from_pem(public_key) {
            Ok(key) => Ok(DecodingKey(key)),
            Err(e) => Err(AuthError { message: error_text(&e) }),
        }
    }

    /// Checks a token at a time given in clock ticks: its signature with this
    /// key, its validity period, that it was issued by `chat_server` for
    /// `chat_web`. Gives the caller's claims as JSON text, or the refusal:
    /// jwt-simple's, or `clock out of range` for a time past the times
    /// jwt-simple can check at.
    pub fn verify_token_at(&self, token: &str, now: u64) -> (r: Result<String, AuthError>)
        ensures
            reports(r, token_check_result(self.key_bytes(), token@, now)),
            r is Ok ==> admitted(self.key_bytes(), token@, now),
            !jwt_signature_valid(self.key_bytes(), token@, token_issuer(), token_audience(), now) ==> r is Err,
            jwt_issuer(self.key_bytes(), token@, token_issuer(), token_audience(), now) != Some(token_issuer())
                ==> r is Err,
            !jwt_audiences(self.key_bytes(), token@, token_issuer(), token_audience(), now).contains(token_audience())
                ==> r is Err,
    {
        if now > 18446740208238985215 {
            return Err(AuthError { message: "clock out of range".to_string() });
        }
        match ed25519_verify_token(self.0.as_slice(), token, "chat_server", "chat_web", now) {
            Ok(claims) => Ok(claims),
            Err(message) => Err(AuthError { message }),
        }
    }

    /// Checks a token now, as `verify_token_at` does at the clock's reading.
    pub fn verify_token(&self, token: &str) -> (r: Result<String, AuthError>)
        ensures
            exists|now: u64|
                #[trigger] reports(r, token_check_result(self.key_bytes(), token@, now)) && (r is Ok
                    ==> admitted(self.key_bytes(), token@, now)),
    {
        let now = jwt_clock_ticks();
        self.verify_token_at(token, now)
    }

    /// Decides on a call from its authorization header at a time given in
    /// clock ticks: the caller's claims, or the refusal with which the call is
    /// answered.
    pub fn call_at(&self, authorization: Option<&str>, now: u64) -> (r: Result<String, Status>)
        ensures
            answers_call(r, call_result(self.key_bytes(), header_text(authorization), now)),
            r matches Err(s) ==> s.code == Code::Unauthenticated,
            r is Ok ==> (authorization matches Some(h) && has_bearer_prefix(h@) && admitted(
                self.key_bytes(),
                h@.skip(bearer_prefix().len() as int),
                now,
            )),
    {
        match bearer_token(authorization) {
            Err(s) => Err(s),
            Ok(token) => admission(self.verify_token_at(token.as_str(), now)),
        }
    }

    /// Decides on a call from its authorization header now, as `call_at` does
    /// at the clock's reading.
    pub fn call(&self, authorization: Option<&str>) -> (r: Result<String, Status>)
        ensures
            exists|now: u64|
                #[trigger] answers_call(r, call_result(self.key_bytes(), header_text(authorization), now)) && (
                r is Ok ==> (authorization matches Some(h) && has_bearer_prefix(h@) && admitted(
                    self.key_bytes(),
                    h@.skip(bearer_prefix().len() as int),
                    now,
                ))),
            r matches Err(s) ==> s.code == Code::Unauthenticated,
    {
        let now = jwt_clock_ticks();
        self.call_at(authorization, now)
    }
}

/// A token put behind the bearer scheme is read back unchanged.
pub proof fn lemma_bearer_roundtrip(token: Seq<char>)
    ensures
        has_bearer_prefix(bearer_prefix() + token),
        (bearer_prefix() + token).skip(bearer_prefix().len() as int) == token,
{
    assert((bearer_prefix() + token).take(7) =~= bearer_prefix());
    assert((bearer_prefix() + token).skip(7) =~= token);
}

} // verus!
