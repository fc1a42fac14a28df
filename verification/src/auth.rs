//! The authentication flow: from a credential record and a submitted
//! password to an access token, and from a presented header back to claims.
//!
//! The store is asked by the caller, who hands in what it answered. Nothing
//! is remembered between calls.

use vstd::prelude::*;
use crate::bearer::{
    bearer_of, bearer_token, header_text, lemma_scheme_then_token, scheme, HeaderError,
};
use crate::password::{password_matches, verify_password};
use crate::records::{CredentialView, GetUserWithPassword, Reply, ReplyView, StoreFailure};
use crate::token::{
    decoding, jwt_decoding, jwt_encoding, opens_to, ClaimSet, DecodeError, EncodeError,
    JwtFailure, RawClaimSet, TokenClaim, TokenCodec,
};

verus! {

/// How long an access token is good for, in seconds.
pub const TOKEN_LIFETIME: u64 = 10000;

/// The body of a login request.
#[derive(Debug, Clone, PartialEq, Eq)]
pub struct AuthRequest {
    pub username: String,
    pub password: String,
}

impl Default for AuthRequest {
    fn default() -> (r: Self)
        ensures
            r.username@.len() == 0,
            r.password@.len() == 0,
    {
        AuthRequest { username: String::new(), password: String::new() }
    }
}

/// The answer to a successful login. `refresh_token` and `scope` are
/// placeholders; `expires_at` is the token's expiry in seconds since the
/// epoch.
#[derive(Debug, Clone, PartialEq, Eq)]
pub struct AuthResponse {
    pub access_token: String,
    pub refresh_token: String,
    pub scope: String,
    pub expires_at: u64,
}

/// What an [`AuthResponse`] holds.
pub struct AuthResponseView {
    pub access_token: Seq<char>,
    pub refresh_token: Seq<char>,
    pub scope: Seq<char>,
    pub expires_at: u64,
}

impl View for AuthResponse {
    type V = AuthResponseView;

    open spec fn view(&self) -> AuthResponseView {
        AuthResponseView {
            access_token: self.access_token@,
            refresh_token: self.refresh_token@,
            scope: self.scope@,
            expires_at: self.expires_at,
        }
    }
}

/// At which of the two steps a presented credential failed: taking the
/// token out of the header, or decoding it.
#[derive(Debug, Clone, Copy, PartialEq, Eq, Structural)]
pub enum Cause {
    /// No token could be taken from the request.
    Header(HeaderError),
    /// The token was turned down by the codec.
    Token(DecodeError),
}

/// Why a request was not granted. The variants keep apart what the client is
/// not told apart: see [`reply_to`].
#[derive(Debug, Clone, Copy, PartialEq, Eq, Structural)]
pub enum AuthError {
    /// No account of that username, or the password is not the account's.
    InvalidCredentials,
    /// The account exists and has been switched off.
    AccountInactive,
    /// The client brought no token, or a bad one.
    Unauthenticated(Cause),
    /// The store failed.
    StoreError,
    /// The request's payload could not be read.
    ValidationError,
    /// The operation does not exist yet.
    NotImplemented,
    /// The account was authenticated, and no token could be made for it.
    TokenCreation,
}

/// The reply to each failure.
///
/// An unknown username, a wrong password and a switched-off account get one
/// and the same reply, so that a client cannot learn which accounts exist.
/// Every failure to present a good token gets one reply as well. A store
/// failure is answered in fixed words, and so is a login for which no token
/// could be made: that is the server's failure, and its status says so.
/// Status 200 is for answers that carry what was asked for, never for a
/// failure.
pub open spec fn reply_to(e: AuthError) -> ReplyView {
    match e {
        AuthError::InvalidCredentials | AuthError::AccountInactive => ReplyView {
            code: 401,
            status: "error"@,
            message: Some("username/password not verified"@),
        },
        AuthError::Unauthenticated(_) => ReplyView {
            code: 401,
            status: "failed"@,
            message: None,
        },
        AuthError::StoreError => ReplyView {
            code: 409,
            status: "error"@,
            message: Some("Internal Error"@),
        },
        AuthError::ValidationError => ReplyView {
            code: 400,
            status: "error"@,
            message: Some("request is not valid"@),
        },
        AuthError::NotImplemented => ReplyView {
            code: 501,
            status: "error"@,
            message: Some("not implemented"@),
        },
        AuthError::TokenCreation => ReplyView {
            code: 500,
            status: "failed"@,
            message: Some("failed to create token"@),
        },
    }
}

impl AuthError {
    /// The reply that the client gets: see [`reply_to`].
    pub fn reply(&self) -> (r: Reply)
        ensures
            r@ == reply_to(*self),
            400 <= r.code < 600,
    {
        match self {
            AuthError::InvalidCredentials | AuthError::AccountInactive => Reply {
                code: 401,
                status: "error".to_owned(),
                message: Some("username/password not verified".to_owned()),
            },
            AuthError::Unauthenticated(_) => Reply {
                code: 401,
                status: "failed".to_owned(),
                message: None,
            },
            AuthError::StoreError => Reply {
                code: 409,
                status: "error".to_owned(),
                message: Some("Internal Error".to_owned()),
            },
            AuthError::ValidationError => Reply {
                code: 400,
                status: "error".to_owned(),
                message: Some("request is not valid".to_owned()),
            },
            AuthError::NotImplemented => Reply {
                code: 501,
                status: "error".to_owned(),
                message: Some("not implemented".to_owned()),
            },
            AuthError::TokenCreation => Reply {
                code: 500,
                status: "failed".to_owned(),
                message: Some("failed to create token".to_owned()),
            },
        }
    }
}

/// The account that the store's answer admits to the password check.
pub open spec fn admitted(
    lookup: Result<Option<GetUserWithPassword>, StoreFailure>,
) -> Result<CredentialView, AuthError> {
    match lookup {
        Err(_) => Err(AuthError::StoreError),
        Ok(None) => Err(AuthError::InvalidCredentials),
        Ok(Some(user)) => {
            if user.is_active == 0 {
                Err(AuthError::AccountInactive)
            } else {
                Ok(user@)
            }
        },
    }
}

/// The claims of a token for an account: the username as subject, the fixed
/// issued-at marker, the expiry and the account's id.
pub open spec fn claims_for(user: CredentialView, exp: u64) -> ClaimSet {
    ClaimSet { sub: user.username, iat: "iat"@, exp, id: user.id }
}

/// The answer to an authenticated account at the moment `now`: a token that
/// expires [`TOKEN_LIFETIME`] seconds later, with the placeholders beside it.
/// Where that moment is beyond the range of the clock, or the token cannot
/// be made, token creation has failed.
pub open spec fn issued(user: CredentialView, secret: Seq<char>, now: u64) -> Result<
    AuthResponseView,
    AuthError,
> {
    if now + TOKEN_LIFETIME > u64::MAX {
        Err(AuthError::TokenCreation)
    } else {
        let exp = (now + TOKEN_LIFETIME) as u64;
        match jwt_encoding(claims_for(user, exp), secret) {
            Some(token) => Ok(
                AuthResponseView {
                    access_token: token,
                    refresh_token: "not implemented"@,
                    scope: "not implemented"@,
                    expires_at: exp,
                },
            ),
            None => Err(AuthError::TokenCreation),
        }
    }
}

/// What a login comes to.
///
/// A store failure is reported as such. An unknown username gives the same
/// error as a wrong password. A switched-off account is turned away before
/// its password is looked at. Only then is the password checked, and only
/// after it a token made.
pub open spec fn login_outcome(
    lookup: Result<Option<GetUserWithPassword>, StoreFailure>,
    password: Seq<char>,
    secret: Seq<char>,
    now: u64,
) -> Result<AuthResponseView, AuthError> {
    match admitted(lookup) {
        Err(e) => Err(e),
        Ok(user) => {
            if password_matches(password, user.password) {
                issued(user, secret, now)
            } else {
                Err(AuthError::InvalidCredentials)
            }
        },
    }
}

/// What a login returns, seen as plain values.
pub open spec fn response_view(r: Result<AuthResponse, AuthError>) -> Result<
    AuthResponseView,
    AuthError,
> {
    match r {
        Ok(response) => Ok(response@),
        Err(e) => Err(e),
    }
}

/// What an admission returns, seen as plain values.
pub open spec fn admission_view(r: Result<GetUserWithPassword, AuthError>) -> Result<
    CredentialView,
    AuthError,
> {
    match r {
        Ok(user) => Ok(user@),
        Err(e) => Err(e),
    }
}

/// Reads the store's answer to the lookup by username: see [`admitted`].
pub fn screen(lookup: Result<Option<GetUserWithPassword>, StoreFailure>) -> (r: Result<
    GetUserWithPassword,
    AuthError,
>)
    ensures
        admission_view(r) == admitted(lookup),
{
    match lookup {
        Err(_) => Err(AuthError::StoreError),
        Ok(None) => Err(AuthError::InvalidCredentials),
        Ok(Some(user)) => {
            if user.is_active == 0 {
                Err(AuthError::AccountInactive)
            } else {
                Ok(user)
            }
        },
    }
}

/// Makes the token for an account, to expire at `exp`.
pub fn create_token(codec: &TokenCodec, user: &GetUserWithPassword, exp: u64) -> (r: Result<
    String,
    EncodeError,
>)
    ensures
        r matches Ok(t) ==> jwt_encoding(claims_for(user@, exp), codec.secret()) == Some(t@),
        r is Err ==> jwt_encoding(claims_for(user@, exp), codec.secret()) is None,
        r matches Ok(t) ==> opens_to(t@, claims_for(user@, exp), codec.secret()),
        r matches Ok(t) ==> forall|now: u64|
            now <= exp ==> #[trigger] decoding(t@, codec.secret(), now) == Ok::<
                ClaimSet,
                DecodeError,
            >(claims_for(user@, exp)),
        r matches Ok(t) ==> forall|now: u64|
            now <= exp ==> #[trigger] presented(t@, codec.secret(), now) == Ok::<
                ClaimSet,
                AuthError,
            >(claims_for(user@, exp)),
        r matches Ok(t) ==> forall|now: u64|
            exp < now ==> #[trigger] presented(t@, codec.secret(), now) == refused(
                DecodeError::Expired,
            ),
        r matches Ok(t) ==> forall|other: Seq<char>, now: u64|
            #![trigger presented(t@, other, now)]
            presented(t@, other, now) == refused(DecodeError::SignatureInvalid) || presented(
                t@,
                other,
                now,
            ) == presented(t@, codec.secret(), now),
{
    let claims = TokenClaim {
        iat: "iat".to_owned(),
        id: user.id.clone(),
        exp,
        sub: user.username.clone(),
    };
    let r = codec.encode(&claims);
    proof {
        if let Ok(t) = &r {
            assert forall|now: u64|
                true implies (now <= exp ==> #[trigger] presented(t@, codec.secret(), now) == Ok::<
                ClaimSet,
                AuthError,
            >(claims@)) && (exp < now ==> presented(t@, codec.secret(), now) == refused(
                DecodeError::Expired,
            )) by {
                lemma_expired_is_not_tampered(t@, claims@, t@, codec.secret(), now, now);
            }
            assert forall|other: Seq<char>, now: u64|
                #![trigger presented(t@, other, now)]
                presented(t@, other, now) == refused(DecodeError::SignatureInvalid) || presented(
                    t@,
                    other,
                    now,
                ) == presented(t@, codec.secret(), now) by {
                lemma_token_under_another_secret(t@, claims@, codec.secret(), other, now);
            }
        }
    }
    r
}

/// Wraps a freshly made token into the answer to a login, or reports that
/// none was made.
pub fn token_response(token: Result<String, EncodeError>, expires_at: u64) -> (r: Result<
    AuthResponse,
    AuthError,
>)
    ensures
        match token {
            Ok(t) => response_view(r) == Ok::<AuthResponseView, AuthError>(
                AuthResponseView {
                    access_token: t@,
                    refresh_token: "not implemented"@,
                    scope: "not implemented"@,
                    expires_at,
                },
            ),
            Err(_) => r == Err::<AuthResponse, AuthError>(AuthError::TokenCreation),
        },
{
    match token {
        Ok(access_token) => Ok(
            AuthResponse {
                access_token,
                refresh_token: "not implemented".to_owned(),
                scope: "not implemented".to_owned(),
                expires_at,
            },
        ),
        Err(_) => Err(AuthError::TokenCreation),
    }
}

/// Logs an account in.
///
/// `lookup` is the store's answer to the query for the credential record of
/// `body.username`, fetched for this attempt; `now` is the current time in
/// seconds since the epoch. See [`login_outcome`]. A token that is handed
/// out decodes, until it expires, to the account's username and id. A login
/// that fails is answered with an error status, also where the account was
/// authenticated and no token could be made for it.
pub fn login_user(
    codec: &TokenCodec,
    body: &AuthRequest,
    lookup: Result<Option<GetUserWithPassword>, StoreFailure>,
    now: u64,
) -> (r: Result<AuthResponse, AuthError>)
    ensures
        response_view(r) == login_outcome(lookup, body.password@, codec.secret(), now),
        r matches Ok(response) ==> admitted(lookup) matches Ok(user) && forall|at: u64|
            at <= response.expires_at ==> #[trigger] decoding(
                response.access_token@,
                codec.secret(),
                at,
            ) == Ok::<ClaimSet, DecodeError>(claims_for(user, response.expires_at)),
        r matches Ok(response) ==> admitted(lookup) matches Ok(user) && opens_to(
            response.access_token@,
            claims_for(user, response.expires_at),
            codec.secret(),
        ),
        r matches Err(e) ==> (e is StoreError || e is InvalidCredentials || e is AccountInactive
            || e is TokenCreation) && 400 <= reply_to(e).code < 600,
{
    let user = match screen(lookup) {
        Ok(user) => user,
        Err(e) => {
            return Err(e);
        },
    };
    if !verify_password(body.password.as_str(), &user) {
        return Err(AuthError::InvalidCredentials);
    }
    match now.checked_add(TOKEN_LIFETIME) {
        Some(exp) => token_response(create_token(codec, &user, exp), exp),
        None => Err(AuthError::TokenCreation),
    }
}

/// Refreshing a token does not exist yet, and says so.
pub fn refresh_the_token() -> (r: Result<AuthResponse, AuthError>)
    ensures
        r == Err::<AuthResponse, AuthError>(AuthError::NotImplemented),
{
    Err(AuthError::NotImplemented)
}

/// What presenting a header comes to at the moment `now`: the claims of its
/// token, or why the client counts as not authenticated.
pub open spec fn validation_outcome(header: Option<Seq<char>>, secret: Seq<char>, now: u64) -> Result<
    ClaimSet,
    AuthError,
> {
    match bearer_of(header) {
        Err(e) => Err(AuthError::Unauthenticated(Cause::Header(e))),
        Ok(token) => match decoding(token, secret, now) {
            Ok(claims) => Ok(claims),
            Err(e) => Err(AuthError::Unauthenticated(Cause::Token(e))),
        },
    }
}

/// What a validation returns, seen as plain values.
pub open spec fn claims_view(r: Result<TokenClaim, AuthError>) -> Result<ClaimSet, AuthError> {
    match r {
        Ok(claims) => Ok(claims@),
        Err(e) => Err(e),
    }
}

/// Validates the token in the value of an `Authorization` header, where
/// `None` stands for a request without one: see [`validation_outcome`]. A
/// header that yields no token never reaches the codec.
pub fn validate_token(codec: &TokenCodec, authorization: Option<&str>, now: u64) -> (r: Result<
    TokenClaim,
    AuthError,
>)
    ensures
        claims_view(r) == validation_outcome(header_text(authorization), codec.secret(), now),
        r matches Err(e) ==> e is Unauthenticated && reply_to(e).code == 401,
{
    match bearer_token(authorization) {
        Err(e) => Err(AuthError::Unauthenticated(Cause::Header(e))),
        Ok(token) => match codec.decode_at(token, now) {
            Ok(claims) => Ok(claims),
            Err(e) => Err(AuthError::Unauthenticated(Cause::Token(e))),
        },
    }
}

/// What presenting a token under the scheme comes to: what decoding the
/// token comes to, with every failure of the codec counted as a failure to
/// authenticate.
pub open spec fn presented(token: Seq<char>, secret: Seq<char>, now: u64) -> Result<
    ClaimSet,
    AuthError,
> {
    validation_outcome(Some(scheme() + token), secret, now)
}

/// The codec's failure `e`, as the flow reports it.
pub open spec fn refused(e: DecodeError) -> Result<ClaimSet, AuthError> {
    Err(AuthError::Unauthenticated(Cause::Token(e)))
}

/// No failure is answered as a success: the status of every reply is an
/// error status.
pub proof fn lemma_failures_reply_with_an_error_status(e: AuthError)
    ensures
        400 <= reply_to(e).code < 600,
        e is InvalidCredentials || e is AccountInactive || e is Unauthenticated <==> reply_to(
            e,
        ).code == 401,
        e is TokenCreation ==> reply_to(e).code == 500,
{
}

/// A header of the scheme and a token fares as the token does with the
/// codec.
pub proof fn lemma_presented_token_is_decoded(token: Seq<char>, secret: Seq<char>, now: u64)
    ensures
        presented(token, secret, now) == (match decoding(token, secret, now) {
            Ok(claims) => Ok::<ClaimSet, AuthError>(claims),
            Err(e) => refused(e),
        }),
{
    lemma_scheme_then_token(token);
}

/// Whatever is presented and whenever, a presentation that fails is
/// answered with status 401 and without a message, and hands out no claims.
pub proof fn lemma_refusal_is_unauthorized(header: Option<Seq<char>>, secret: Seq<char>, now: u64)
    ensures
        validation_outcome(header, secret, now) matches Err(e) ==> e is Unauthenticated
            && reply_to(e).code == 401 && reply_to(e).message is None,
{
}

/// A token that the decoder does not open under the secret is refused
/// whenever it is presented: a token that was altered is refused once the
/// decoder finds it so.
pub proof fn lemma_unopened_token_is_refused(token: Seq<char>, secret: Seq<char>, now: u64)
    ensures
        jwt_decoding(token, secret) is Err ==> presented(token, secret, now) is Err,
        presented(token, secret, now) matches Err(e) ==> e is Unauthenticated && reply_to(e).code
            == 401 && reply_to(e).message is None,
        jwt_decoding(token, secret) == Err::<RawClaimSet, JwtFailure>(JwtFailure::InvalidSignature)
            ==> presented(token, secret, now) == refused(DecodeError::SignatureInvalid),
{
    lemma_scheme_then_token(token);
}

/// A token made for `claims` under one secret and presented under another:
/// at every moment it fails on its signature, or it fares exactly as under
/// the secret it was made with. It fails on its signature wherever the
/// decoder does not open it under the other secret, which leaves out only
/// the secrets that sign this token alike.
pub proof fn lemma_token_under_another_secret(
    token: Seq<char>,
    claims: ClaimSet,
    secret: Seq<char>,
    other: Seq<char>,
    now: u64,
)
    requires
        opens_to(token, claims, secret),
    ensures
        presented(token, other, now) == refused(DecodeError::SignatureInvalid) || presented(
            token,
            other,
            now,
        ) == presented(token, secret, now),
        jwt_decoding(token, other) is Err ==> presented(token, other, now) == refused(
            DecodeError::SignatureInvalid,
        ),
        presented(token, other, now) is Ok ==> presented(token, other, now) == Ok::<
            ClaimSet,
            AuthError,
        >(claims),
{
    lemma_scheme_then_token(token);
}

/// A token made for `claims` and presented under its own secret yields the
/// claims up to their expiry and has expired after it. An expired token and
/// a token with a signature that the decoder finds altered are refused for
/// different causes, at any two moments.
pub proof fn lemma_expired_is_not_tampered(
    token: Seq<char>,
    claims: ClaimSet,
    altered: Seq<char>,
    secret: Seq<char>,
    now: u64,
    then: u64,
)
    requires
        opens_to(token, claims, secret),
    ensures
        now <= claims.exp ==> presented(token, secret, now) == Ok::<ClaimSet, AuthError>(claims),
        claims.exp < now ==> presented(token, secret, now) == refused(DecodeError::Expired),
        presented(token, secret, now) != refused(DecodeError::SignatureInvalid),
        presented(altered, secret, then) == refused(DecodeError::SignatureInvalid) ==> presented(
            altered,
            secret,
            then,
        ) != presented(token, secret, now),
{
    lemma_scheme_then_token(token);
    lemma_scheme_then_token(altered);
}

} // verus!
