//! The token codec: a claim set goes into a signed, compact token and comes
//! back out of it, provided the signature holds and the expiry has not passed.
//!
//! Signing, the compact three-part form and the JSON payload are the work of
//! the `jsonwebtoken` crate. What a token is good for at a given moment is
//! decided here.

use vstd::prelude::*;
use crate::records::text_of;

verus! {

/// The claims a token carries: who it was issued to, an issued-at marker,
/// the moment it expires (seconds since the epoch) and the account's id.
#[derive(Debug, Clone, PartialEq, Eq)]
pub struct TokenClaim {
    pub sub: String,
    pub iat: String,
    pub exp: u64,
    pub id: String,
}

/// What a [`TokenClaim`] holds.
pub struct ClaimSet {
    pub sub: Seq<char>,
    pub iat: Seq<char>,
    pub exp: u64,
    pub id: Seq<char>,
}

impl View for TokenClaim {
    type V = ClaimSet;

    open spec fn view(&self) -> ClaimSet {
        ClaimSet { sub: self.sub@, iat: self.iat@, exp: self.exp, id: self.id@ }
    }
}

/// The four claims as they were found in a token's payload, each one absent
/// where the payload has no member of that name and of the expected type.
#[derive(Debug, Clone, PartialEq, Eq)]
pub struct RawClaims {
    pub sub: Option<String>,
    pub iat: Option<String>,
    pub exp: Option<u64>,
    pub id: Option<String>,
}

/// What a [`RawClaims`] holds.
pub struct RawClaimSet {
    pub sub: Option<Seq<char>>,
    pub iat: Option<Seq<char>>,
    pub exp: Option<u64>,
    pub id: Option<Seq<char>>,
}

impl View for RawClaims {
    type V = RawClaimSet;

    open spec fn view(&self) -> RawClaimSet {
        RawClaimSet {
            sub: text_of(self.sub),
            iat: text_of(self.iat),
            exp: self.exp,
            id: text_of(self.id),
        }
    }
}

/// A payload in which all four claims are present.
pub open spec fn complete(c: ClaimSet) -> RawClaimSet {
    RawClaimSet { sub: Some(c.sub), iat: Some(c.iat), exp: Some(c.exp), id: Some(c.id) }
}

/// Why a token could not be opened, before its claims were looked at.
#[derive(Debug, Clone, Copy, PartialEq, Eq, Structural)]
pub enum JwtFailure {
    /// The signature in the token is not the one the secret gives.
    InvalidSignature,
    /// Anything else: the shape, the header or the payload of the token.
    Other,
}

/// Why a presented token was turned down.
#[derive(Debug, Clone, Copy, PartialEq, Eq, Structural)]
pub enum DecodeError {
    /// The token has the wrong shape, or its payload lacks a claim.
    Malformed,
    /// The token was not signed with this codec's secret.
    SignatureInvalid,
    /// The signature holds, but the expiry has passed.
    Expired,
}

/// A token could not be produced from the claims.
#[derive(Debug, Clone, Copy, PartialEq, Eq, Structural)]
pub struct EncodeError;

/// What opening a token yields, seen as plain values.
pub open spec fn opened_view(r: Result<RawClaims, JwtFailure>) -> Result<RawClaimSet, JwtFailure> {
    match r {
        Ok(raw) => Ok(raw@),
        Err(e) => Err(e),
    }
}

/// What decoding yields, seen as plain values.
pub open spec fn decoded_view(r: Result<TokenClaim, DecodeError>) -> Result<ClaimSet, DecodeError> {
    match r {
        Ok(c) => Ok(c@),
        Err(e) => Err(e),
    }
}

/// The verdict on an opened token at the moment `now`.
///
/// A failed signature is reported as such and every other failure to open
/// the token as malformed. A payload that lacks one of the four claims is
/// malformed as well. The claims are good up to and including the second
/// named by `exp`; after it the token has expired.
pub open spec fn decode_outcome(opened: Result<RawClaimSet, JwtFailure>, now: u64) -> Result<
    ClaimSet,
    DecodeError,
> {
    match opened {
        Err(JwtFailure::InvalidSignature) => Err(DecodeError::SignatureInvalid),
        Err(JwtFailure::Other) => Err(DecodeError::Malformed),
        Ok(raw) => {
            if raw.sub is Some && raw.iat is Some && raw.exp is Some && raw.id is Some {
                if raw.exp->0 < now {
                    Err(DecodeError::Expired)
                } else {
                    Ok(ClaimSet { sub: raw.sub->0, iat: raw.iat->0, exp: raw.exp->0, id: raw.id->0 })
                }
            } else {
                Err(DecodeError::Malformed)
            }
        },
    }
}

/// Judges an opened token at the moment `now`: see [`decode_outcome`].
pub fn check_claims(opened: Result<RawClaims, JwtFailure>, now: u64) -> (r: Result<
    TokenClaim,
    DecodeError,
>)
    ensures
        decoded_view(r) == decode_outcome(opened_view(opened), now),
{
    match opened {
        Err(JwtFailure::InvalidSignature) => Err(DecodeError::SignatureInvalid),
        Err(JwtFailure::Other) => Err(DecodeError::Malformed),
        Ok(raw) => {
            match (raw.sub, raw.iat, raw.exp, raw.id) {
                (Some(sub), Some(iat), Some(exp), Some(id)) => {
                    if exp < now {
                        Err(DecodeError::Expired)
                    } else {
                        Ok(TokenClaim { sub, iat, exp, id })
                    }
                },
                _ => Err(DecodeError::Malformed),
            }
        },
    }
}

/// Claims are handed out only from a token that opened to exactly these
/// claims, and never after their expiry.
pub proof fn lemma_accepted_claims_are_in_time(opened: Result<RawClaimSet, JwtFailure>, now: u64)
    ensures
        decode_outcome(opened, now) matches Ok(claims) ==> now <= claims.exp && opened == Ok::<
            RawClaimSet,
            JwtFailure,
        >(complete(claims)),
{
}

/// Time only ever takes a token away. What is accepted at one moment was
/// accepted, with the same claims, at every earlier one; what has expired
/// stays expired; and whether a token fails on its signature or on its shape
/// does not depend on the moment at all.
pub proof fn lemma_verdict_over_time(
    opened: Result<RawClaimSet, JwtFailure>,
    earlier: u64,
    later: u64,
)
    requires
        earlier <= later,
    ensures
        decode_outcome(opened, later) is Ok ==> decode_outcome(opened, earlier) == decode_outcome(
            opened,
            later,
        ),
        decode_outcome(opened, earlier) == Err::<ClaimSet, DecodeError>(DecodeError::Expired)
            ==> decode_outcome(opened, later) == Err::<ClaimSet, DecodeError>(
            DecodeError::Expired,
        ),
        decode_outcome(opened, earlier) == Err::<ClaimSet, DecodeError>(
            DecodeError::SignatureInvalid,
        ) <==> decode_outcome(opened, later) == Err::<ClaimSet, DecodeError>(
            DecodeError::SignatureInvalid,
        ),
        decode_outcome(opened, earlier) == Err::<ClaimSet, DecodeError>(DecodeError::Malformed)
            <==> decode_outcome(opened, later) == Err::<ClaimSet, DecodeError>(
            DecodeError::Malformed,
        ),
{
}

/// The error type of the `jsonwebtoken` crate, carried through unopened.
#[verifier::external_type_specification]
#[verifier::external_body]
pub struct ExJwtError(jsonwebtoken::errors::Error);

/// The token that `jsonwebtoken::encode` makes of a claim set and a secret
/// under the default header, or `None` where it makes none.
pub uninterp spec fn jwt_encoding(claims: ClaimSet, secret: Seq<char>) -> Option<Seq<char>>;

/// What `jsonwebtoken::decode` finds in a token under a secret, with its
/// default validation but for the clock: the four claims of the payload, or
/// the kind of failure.
pub uninterp spec fn jwt_decoding(token: Seq<char>, secret: Seq<char>) -> Result<
    RawClaimSet,
    JwtFailure,
>;

/// A token opens to `claims` under `secret`, and under any other secret it
/// either opens to the same claims or fails on its signature.
pub open spec fn opens_to(token: Seq<char>, claims: ClaimSet, secret: Seq<char>) -> bool {
    &&& jwt_decoding(token, secret) == Ok::<RawClaimSet, JwtFailure>(complete(claims))
    &&& forall|other: Seq<char>| #[trigger]
        jwt_decoding(token, other) == Ok::<RawClaimSet, JwtFailure>(complete(claims))
            || jwt_decoding(token, other) == Err::<RawClaimSet, JwtFailure>(
            JwtFailure::InvalidSignature,
        )
}

/// Calls `jsonwebtoken::encode` with the default header (HS256), the four
/// claims as a JSON object and the secret's bytes as the key.
///
/// Trusted: the result is a function of the claims and the secret alone. A
/// token that comes back opens to the same claims under the same secret; the
/// crate's `decode` splits what `encode` joined, signs the same message anew
/// and compares, so under another secret it can only find the same payload
/// or a signature that does not match.
#[verifier::external_body]
fn jwt_encode(claims: &TokenClaim, secret: &str) -> (r: Result<String, jsonwebtoken::errors::Error>)
    ensures
        r matches Ok(t) ==> jwt_encoding(claims@, secret@) == Some(t@),
        r is Err ==> jwt_encoding(claims@, secret@) is None,
        r matches Ok(t) ==> opens_to(t@, claims@, secret@),
{
    let mut payload = serde_json::Map::new();
    payload.insert("sub".to_string(), serde_json::Value::from(claims.sub.as_str()));
    payload.insert("iat".to_string(), serde_json::Value::from(claims.iat.as_str()));
    payload.insert("exp".to_string(), serde_json::Value::from(claims.exp));
    payload.insert("id".to_string(), serde_json::Value::from(claims.id.as_str()));
    let key = jsonwebtoken::EncodingKey::from_secret(secret.as_bytes());
    jsonwebtoken::encode(&jsonwebtoken::Header::default(), &payload, &key)
}

/// Calls `jsonwebtoken::decode` for a JSON payload, with the secret's bytes
/// as the key and the default validation (HS256, `exp` required) except that
/// the crate does not compare `exp` with its own clock. Each claim is taken
/// from the payload if it is there as a string (`exp`: as an unsigned
/// integer).
///
/// Trusted: the result is a function of the token and the secret alone.
#[verifier::external_body]
fn jwt_decode(token: &str, secret: &str) -> (r: Result<RawClaims, JwtFailure>)
    ensures
        opened_view(r) == jwt_decoding(token@, secret@),
{
    let mut validation = jsonwebtoken::Validation::default();
    validation.validate_exp = false;
    let key = jsonwebtoken::DecodingKey::from_secret(secret.as_bytes());
    match jsonwebtoken::decode::<serde_json::Value>(token, &key, &validation) {
        Ok(data) => Ok(RawClaims {
            sub: data.claims["sub"].as_str().map(String::from),
            iat: data.claims["iat"].as_str().map(String::from),
            exp: data.claims["exp"].as_u64(),
            id: data.claims["id"].as_str().map(String::from),
        }),
        Err(e) => match e.kind() {
            jsonwebtoken::errors::ErrorKind::InvalidSignature => Err(JwtFailure::InvalidSignature),
            _ => Err(JwtFailure::Other),
        },
    }
}

/// Calls `jsonwebtoken::get_current_timestamp`: the seconds since the epoch
/// by the system's clock. Nothing is known of the result.
#[verifier::external_body]
fn current_timestamp() -> u64 {
    jsonwebtoken::get_current_timestamp()
}

/// Signs and opens tokens with one secret, fixed when the codec is made.
pub struct TokenCodec {
    secret: String,
}

/// What decoding `token` under `secret` at the moment `now` gives.
pub open spec fn decoding(token: Seq<char>, secret: Seq<char>, now: u64) -> Result<
    ClaimSet,
    DecodeError,
> {
    decode_outcome(jwt_decoding(token, secret), now)
}

impl TokenCodec {
    /// The secret this codec signs with.
    pub closed spec fn secret(&self) -> Seq<char> {
        self.secret@
    }

    /// A codec for the given secret.
    pub fn new(secret: String) -> (codec: TokenCodec)
        ensures
            codec.secret() == secret@,
    {
        TokenCodec { secret }
    }

    /// Makes a signed token of the claims.
    ///
    /// The token is the one the signing crate gives for these claims and this
    /// secret, and there is an error exactly where it gives none. Of a token
    /// that comes back:
    /// - decoded with the same secret no later than the claims' expiry, it
    ///   yields the claims again;
    /// - decoded with the same secret after the expiry, it has expired;
    /// - decoded with any secret at any time, it either fails on its
    ///   signature or fares exactly as it does with this codec's secret.
    pub fn encode(&self, claims: &TokenClaim) -> (r: Result<String, EncodeError>)
        ensures
            r matches Ok(t) ==> jwt_encoding(claims@, self.secret()) == Some(t@),
            r is Err ==> jwt_encoding(claims@, self.secret()) is None,
            r matches Ok(t) ==> opens_to(t@, claims@, self.secret()),
            r matches Ok(t) ==> forall|now: u64|
                now <= claims.exp ==> #[trigger] decoding(t@, self.secret(), now) == Ok::<
                    ClaimSet,
                    DecodeError,
                >(claims@),
            r matches Ok(t) ==> forall|now: u64|
                claims.exp < now ==> #[trigger] decoding(t@, self.secret(), now) == Err::<
                    ClaimSet,
                    DecodeError,
                >(DecodeError::Expired),
            r matches Ok(t) ==> forall|other: Seq<char>, now: u64|
                #![trigger decoding(t@, other, now)]
                decoding(t@, other, now) == Err::<ClaimSet, DecodeError>(
                    DecodeError::SignatureInvalid,
                ) || decoding(t@, other, now) == decoding(t@, self.secret(), now),
    {
        match jwt_encode(claims, self.secret.as_str()) {
            Ok(token) => Ok(token),
            Err(_) => Err(EncodeError),
        }
    }

    /// Decodes a token at the moment `now`: see [`decode_outcome`].
    pub fn decode_at(&self, token: &str, now: u64) -> (r: Result<TokenClaim, DecodeError>)
        ensures
            decoded_view(r) == decoding(token@, self.secret(), now),
    {
        check_claims(jwt_decode(token, self.secret.as_str()), now)
    }

    /// Decodes a token at the moment the system's clock shows.
    ///
    /// The result is the verdict of [`decode_outcome`] at some moment. So
    /// claims come back only from a token that opens to them under this
    /// codec's secret, and a failure on the signature or on the shape is
    /// reported whatever the clock shows.
    pub fn decode(&self, token: &str) -> (r: Result<TokenClaim, DecodeError>)
        ensures
            exists|now: u64| decoded_view(r) == #[trigger] decoding(token@, self.secret(), now),
            r matches Ok(claims) ==> jwt_decoding(token@, self.secret()) == Ok::<
                RawClaimSet,
                JwtFailure,
            >(complete(claims@)),
            r == Err::<TokenClaim, DecodeError>(DecodeError::SignatureInvalid) <==> jwt_decoding(
                token@,
                self.secret(),
            ) == Err::<RawClaimSet, JwtFailure>(JwtFailure::InvalidSignature),
            r == Err::<TokenClaim, DecodeError>(DecodeError::Malformed) <==> decoding(
                token@,
                self.secret(),
                0,
            ) == Err::<ClaimSet, DecodeError>(DecodeError::Malformed),
    {
        let now = current_timestamp();
        proof {
            lemma_accepted_claims_are_in_time(jwt_decoding(token@, self.secret()), now);
            lemma_verdict_over_time(jwt_decoding(token@, self.secret()), 0, now);
        }
        self.decode_at(token, now)
    }
}

} // verus!
