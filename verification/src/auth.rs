//! The decisions of the OpenID Connect login: which scopes are asked for,
//! when a provider's callback is let through, and whether the tokens that
//! come back belong together.

use vstd::prelude::*;
use openidconnect::{AccessToken, AccessTokenHash, AuthUrl, ClientId, CsrfToken, IssuerUrl, Nonce};
use openidconnect::{PkceCodeChallenge, RedirectUrl, Scope};
use crate::auth::SigningAlgorithm as S;

verus! {

type J = openidconnect::core::CoreJwsSigningAlgorithm;
type CoreClient = openidconnect::core::CoreClient;
type Flow = openidconnect::core::CoreAuthenticationFlow;

/// What the login keeps between sending the user to the provider and the
/// provider's callback: the PKCE verifier, the nonce and the CSRF token
/// (their secret values).
pub struct AuthVerify {
    pub pkce_verifier: String,
    pub nonce: String,
    pub csrf_token: String,
}

/// Where to send the user to log in, and what to keep for the callback.
pub struct AuthContent {
    pub redirect_url: String,
    pub verify: AuthVerify,
}

/// The scopes that a login asks the provider for, in order.
pub open spec fn scope_names() -> Seq<Seq<char>> {
    seq!["profile"@, "email"@]
}

/// The scopes that a login asks the provider for: `profile`, then `email`.
pub fn login_scopes() -> (res: Vec<String>)
    ensures
        res@.map_values(|s: String| s@) == scope_names(),
{
    let mut res: Vec<String> = Vec::new();
    res.push(String::from_str("profile"));
    res.push(String::from_str("email"));
    assert(res@.map_values(|s: String| s@) =~= scope_names());
    res
}

/// What a login request is made from: the provider's authorization
/// endpoint, this client's id and the address that the provider sends the
/// user back to.
pub struct ClientSettings {
    pub authorization_endpoint: String,
    pub client_id: String,
    pub redirect_url: String,
}

/// Whether the url crate parses `s` as an absolute URL (`Url::parse`).
pub uninterp spec fn url_parses(s: Seq<char>) -> bool;

/// The PKCE S256 challenge that openidconnect derives from a verifier.
pub uninterp spec fn pkce_challenge(verifier: Seq<char>) -> Seq<char>;

/// The authorization URL that openidconnect builds for the authorization
/// code flow at `endpoint`, for client `client_id`, redirect `redirect`,
/// the given scopes (after `openid`), state `csrf`, nonce `nonce` and PKCE
/// challenge `challenge`.
pub uninterp spec fn oidc_authorize_url(
    endpoint: Seq<char>,
    client_id: Seq<char>,
    redirect: Seq<char>,
    scopes: Seq<Seq<char>>,
    csrf: Seq<char>,
    nonce: Seq<char>,
    challenge: Seq<char>,
) -> Seq<char>;

/// openidconnect's `Client::authorize_url` with fresh random state and
/// nonce (`CsrfToken::new_random`, `Nonce::new_random`) and a fresh PKCE
/// pair (`PkceCodeChallenge::new_random_sha256`), on a client made from
/// `endpoint`, `client_id` and `redirect` (`AuthUrl::new`,
/// `RedirectUrl::new`; issuer, token and key settings do not enter the
/// URL). Gives the URL, the state, the nonce and the PKCE verifier; `None`
/// exactly where one of the two addresses does not parse. The random
/// values are not stated; the URL is named over them.
#[verifier::external_body]
fn authorization_request(
    endpoint: &String,
    client_id: &String,
    redirect: &String,
    scopes: &Vec<String>,
) -> (res: Option<(String, String, String, String)>)
    ensures
        match res {
            Some((url, csrf, nonce, verifier)) => url_parses(endpoint@) && url_parses(redirect@)
                && url@ == oidc_authorize_url(
                endpoint@,
                client_id@,
                redirect@,
                scopes@.map_values(|s: String| s@),
                csrf@,
                nonce@,
                pkce_challenge(verifier@),
            ),
            None => !(url_parses(endpoint@) && url_parses(redirect@)),
        },
{
    let client = CoreClient::new(ClientId::new(client_id.clone()), None, IssuerUrl::new(endpoint.clone()).ok()?, AuthUrl::new(endpoint.clone()).ok()?, None, None, Default::default())
        .set_redirect_uri(RedirectUrl::new(redirect.clone()).ok()?);
    let (challenge, verifier) = PkceCodeChallenge::new_random_sha256();
    let (url, csrf, nonce) = client.authorize_url(Flow::AuthorizationCode, CsrfToken::new_random, Nonce::new_random)
        .add_scopes(scopes.iter().map(|s| Scope::new(s.clone()))).set_pkce_challenge(challenge).url();
    Some((url.to_string(), csrf.secret().clone(), nonce.secret().clone(), verifier.secret().clone()))
}

/// Starts a login: where to send the user (asking for `login_scopes`), and
/// the random state, nonce and PKCE verifier to keep for the callback.
/// `None` where the endpoint or the redirect address is not a URL.
pub fn get_auth_url(client: &ClientSettings) -> (res: Option<AuthContent>)
    ensures
        res is Some <==> url_parses(client.authorization_endpoint@) && url_parses(client.redirect_url@),
        res matches Some(c) ==> c.redirect_url@ == oidc_authorize_url(
            client.authorization_endpoint@,
            client.client_id@,
            client.redirect_url@,
            scope_names(),
            c.verify.csrf_token@,
            c.verify.nonce@,
            pkce_challenge(c.verify.pkce_verifier@),
        ),
{
    let scopes = login_scopes();
    match authorization_request(&client.authorization_endpoint, &client.client_id, &client.redirect_url, &scopes) {
        Some((redirect_url, csrf_token, nonce, pkce_verifier)) => Some(
            AuthContent { redirect_url, verify: AuthVerify { pkce_verifier, nonce, csrf_token } },
        ),
        None => None,
    }
}

/// The login settings of the timeline server: where a user lands after
/// logging in, and the scopes asked for.
pub struct AuthSettings {
    pub post_auth_path: String,
    pub scopes: Vec<String>,
}

impl AuthSettings {
    /// The timeline's settings: back to `/` after the login, scopes
    /// `profile` and `email`.
    pub fn from_config() -> (res: AuthSettings)
        ensures
            res.post_auth_path@ == "/"@,
            res.scopes@.map_values(|s: String| s@) == scope_names(),
    {
        AuthSettings { post_auth_path: String::from_str("/"), scopes: login_scopes() }
    }
}

/// Whether the `state` that the provider sends back is the CSRF token that
/// was handed out.
pub fn csrf_matches(verify: &AuthVerify, state: &String) -> (res: bool)
    ensures
        res == (verify.csrf_token@ == state@),
{
    verify.csrf_token == *state
}

/// What happens to a provider's callback.
pub enum CallbackStep<E> {
    /// Answer 401 with no page.
    Reject,
    /// Answer with the failed-login page; the login cookie could not be
    /// read back, for this reason.
    Fail(E),
    /// Exchange the authorization code, using what was kept.
    Exchange(AuthVerify),
}

/// The decision on a provider's callback, from the login cookie (`None`
/// when there is none, an error when it cannot be read back) and the
/// callback's `state`: no cookie or a `state` other than the kept CSRF
/// token is rejected, an unreadable cookie fails the login, and otherwise
/// the code is exchanged with what was kept.
pub open spec fn callback_outcome<E>(cookie: Option<Result<AuthVerify, E>>, state: Seq<char>) -> CallbackStep<E> {
    match cookie {
        None => CallbackStep::Reject,
        Some(Err(e)) => CallbackStep::Fail(e),
        Some(Ok(v)) => if v.csrf_token@ == state {
            CallbackStep::Exchange(v)
        } else {
            CallbackStep::Reject
        },
    }
}

/// Decides a provider's callback (see `callback_outcome`).
pub fn callback_step<E>(cookie: Option<Result<AuthVerify, E>>, state: &String) -> (res: CallbackStep<E>)
    ensures
        res == callback_outcome(cookie, state@),
{
    match cookie {
        None => CallbackStep::Reject,
        Some(Err(e)) => CallbackStep::Fail(e),
        Some(Ok(v)) => {
            if csrf_matches(&v, state) {
                CallbackStep::Exchange(v)
            } else {
                CallbackStep::Reject
            }
        },
    }
}

/// The login round trip, as far as the library decides it: when the
/// callback brings back the data that a login kept, with that login's CSRF
/// token as its `state`, the code is exchanged with exactly that data; with
/// any other `state` it is rejected.
pub proof fn lemma_login_round_trip<E>(started: AuthContent, state: Seq<char>)
    ensures
        callback_outcome(Some(Ok::<AuthVerify, E>(started.verify)), state) == if state
            == started.verify.csrf_token@ {
            CallbackStep::<E>::Exchange(started.verify)
        } else {
            CallbackStep::<E>::Reject
        },
{
}

/// Why a login failed after the code exchange.
#[derive(Clone, Copy, Debug, PartialEq, Eq)]
pub enum AuthFailure {
    /// The token response held no ID token.
    MissingIdToken,
    /// The ID token's access-token hash is not the access token's.
    InvalidAccessToken,
    /// The ID token is signed with an algorithm that has no hash.
    UnsupportedAlgorithm,
}

impl AuthFailure {
    pub open spec fn spec_message(self) -> Seq<char> {
        match self {
            AuthFailure::MissingIdToken => "Server did not return an ID token"@,
            AuthFailure::InvalidAccessToken => "Invalid access token"@,
            AuthFailure::UnsupportedAlgorithm => "Unsupported signature algorithm: signature algorithm `none` has no corresponding hash algorithm"@,
        }
    }

    /// The message reported for this failure.
    pub fn message(&self) -> (res: String)
        ensures
            res@ == self.spec_message(),
    {
        match self {
            AuthFailure::MissingIdToken => String::from_str("Server did not return an ID token"),
            AuthFailure::InvalidAccessToken => String::from_str("Invalid access token"),
            AuthFailure::UnsupportedAlgorithm => String::from_str(
                "Unsupported signature algorithm: signature algorithm `none` has no corresponding hash algorithm",
            ),
        }
    }
}

/// The ID token of a token response; its absence fails the login.
pub fn require_id_token<T>(id_token: Option<T>) -> (res: Result<T, AuthFailure>)
    ensures
        match id_token {
            Some(t) => res == Ok::<T, AuthFailure>(t),
            None => res == Err::<T, AuthFailure>(AuthFailure::MissingIdToken),
        },
{
    match id_token {
        Some(t) => Ok(t),
        None => Err(AuthFailure::MissingIdToken),
    }
}

/// The JSON Web Signature algorithms that an ID token can be signed with.
#[derive(Clone, Copy, Debug, PartialEq, Eq)]
pub enum SigningAlgorithm {
    HmacSha256,
    HmacSha384,
    HmacSha512,
    RsaSsaPkcs1V15Sha256,
    RsaSsaPkcs1V15Sha384,
    RsaSsaPkcs1V15Sha512,
    EcdsaP256Sha256,
    EcdsaP384Sha384,
    EcdsaP521Sha512,
    RsaSsaPssSha256,
    RsaSsaPssSha384,
    RsaSsaPssSha512,
    EdDsaEd25519,
    Unsigned,
}

/// The access-token hash that openidconnect computes for `access_token`
/// under `alg` (the left half of the algorithm's digest, base64url).
pub uninterp spec fn oidc_access_token_hash(access_token: Seq<char>, alg: SigningAlgorithm) -> Seq<char>;

/// `openidconnect::AccessTokenHash::from_token` with the core signing
/// algorithm `alg`. It fails for the unsigned algorithm only, and
/// otherwise gives the hash named `oidc_access_token_hash`.
#[verifier::external_body]
fn access_token_hash(access_token: &String, alg: SigningAlgorithm) -> (res: Option<String>)
    ensures
        match res {
            Some(h) => alg != SigningAlgorithm::Unsigned && h@ == oidc_access_token_hash(
                access_token@,
                alg,
            ),
            None => alg == SigningAlgorithm::Unsigned,
        },
{
    let core_alg = match alg {
        S::HmacSha256 => J::HmacSha256, S::HmacSha384 => J::HmacSha384,
        S::HmacSha512 => J::HmacSha512, S::RsaSsaPkcs1V15Sha256 => J::RsaSsaPkcs1V15Sha256,
        S::RsaSsaPkcs1V15Sha384 => J::RsaSsaPkcs1V15Sha384, S::RsaSsaPkcs1V15Sha512 => J::RsaSsaPkcs1V15Sha512,
        S::EcdsaP256Sha256 => J::EcdsaP256Sha256, S::EcdsaP384Sha384 => J::EcdsaP384Sha384,
        S::EcdsaP521Sha512 => J::EcdsaP521Sha512, S::RsaSsaPssSha256 => J::RsaSsaPssSha256,
        S::RsaSsaPssSha384 => J::RsaSsaPssSha384, S::RsaSsaPssSha512 => J::RsaSsaPssSha512,
        S::EdDsaEd25519 => J::EdDsaEd25519, S::Unsigned => J::None,
    };
    let token = AccessToken::new(access_token.clone());
    AccessTokenHash::from_token(&token, &core_alg).ok().map(|h| (*h).clone())
}

/// Compares the access-token hash that the ID token claims with the one
/// computed from the access token (`None` where none could be computed).
pub fn compare_access_token_hash(expected: &String, actual: Option<String>) -> (res: Result<
    (),
    AuthFailure,
>)
    ensures
        match actual {
            None => res == Err::<(), AuthFailure>(AuthFailure::UnsupportedAlgorithm),
            Some(a) => if a@ == expected@ {
                res is Ok
            } else {
                res == Err::<(), AuthFailure>(AuthFailure::InvalidAccessToken)
            },
        },
{
    match actual {
        None => Err(AuthFailure::UnsupportedAlgorithm),
        Some(a) => {
            if a == *expected {
                Ok(())
            } else {
                Err(AuthFailure::InvalidAccessToken)
            }
        },
    }
}

/// Checks that the access token belongs to the ID token: where the ID
/// token claims an access-token hash, the hash of the access token under
/// the ID token's signing algorithm must equal it.
pub fn check_access_token(expected: Option<String>, access_token: &String, alg: SigningAlgorithm) -> (res:
    Result<(), AuthFailure>)
    ensures
        match expected {
            None => res is Ok,
            Some(e) => if alg == SigningAlgorithm::Unsigned {
                res == Err::<(), AuthFailure>(AuthFailure::UnsupportedAlgorithm)
            } else if oidc_access_token_hash(access_token@, alg) == e@ {
                res is Ok
            } else {
                res == Err::<(), AuthFailure>(AuthFailure::InvalidAccessToken)
            },
        },
{
    match expected {
        None => Ok(()),
        Some(e) => {
            let actual = access_token_hash(access_token, alg);
            compare_access_token_hash(&e, actual)
        },
    }
}

/// The next exchange of a login once the ID token's claims are verified.
pub enum LoginStep {
    /// Ask the provider for the user's information.
    RequestUserInfo,
    /// Stop: the login failed.
    Failed(AuthFailure),
}

/// After the ID token's claims are verified: the user's information is
/// asked for only when the access token belongs to the ID token. `claimed`
/// is the access-token hash that the ID token claims, with the ID token's
/// signing algorithm (read only where a hash is claimed).
pub fn after_claims(claimed: Option<(String, SigningAlgorithm)>, access_token: &String) -> (res:
    LoginStep)
    ensures
        match claimed {
            None => res is RequestUserInfo,
            Some((e, alg)) => if alg == SigningAlgorithm::Unsigned {
                res == LoginStep::Failed(AuthFailure::UnsupportedAlgorithm)
            } else if oidc_access_token_hash(access_token@, alg) == e@ {
                res is RequestUserInfo
            } else {
                res == LoginStep::Failed(AuthFailure::InvalidAccessToken)
            },
        },
{
    let checked = match claimed {
        None => Ok(()),
        Some((e, alg)) => check_access_token(Some(e), access_token, alg),
    };
    match checked {
        Ok(()) => LoginStep::RequestUserInfo,
        Err(f) => LoginStep::Failed(f),
    }
}

} // verus!
