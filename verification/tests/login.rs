use timeline::auth::{
    after_claims, get_auth_url, ClientSettings, LoginStep,
    callback_step, check_access_token, compare_access_token_hash, csrf_matches, login_scopes,
    require_id_token, AuthFailure, AuthSettings, AuthVerify, CallbackStep, SigningAlgorithm,
};

fn verify(csrf: &str) -> AuthVerify {
    AuthVerify {
        pkce_verifier: "pkce".to_string(),
        nonce: "n0nce".to_string(),
        csrf_token: csrf.to_string(),
    }
}

#[test]
fn scopes_are_profile_and_email() {
    assert_eq!(login_scopes(), vec!["profile".to_string(), "email".to_string()]);
    let s = AuthSettings::from_config();
    assert_eq!(s.post_auth_path, "/");
    assert_eq!(s.scopes, vec!["profile".to_string(), "email".to_string()]);
}

#[test]
fn csrf_state_must_match() {
    assert!(csrf_matches(&verify("abc"), &"abc".to_string()));
    assert!(!csrf_matches(&verify("abc"), &"abd".to_string()));
}

#[test]
fn callback_without_cookie_is_rejected() {
    assert!(matches!(callback_step(None, &"s".to_string()), CallbackStep::<()>::Reject));
}

#[test]
fn callback_with_unreadable_cookie_fails() {
    match callback_step(Some(Err("bad json".to_string())), &"s".to_string()) {
        CallbackStep::Fail(reason) => assert_eq!(reason, "bad json"),
        _ => panic!("unreadable cookie did not fail the login"),
    }
}

#[test]
fn callback_with_forged_state_is_rejected() {
    assert!(matches!(
        callback_step::<()>(Some(Ok(verify("s1"))), &"s2".to_string()),
        CallbackStep::Reject
    ));
}

#[test]
fn callback_with_matching_state_exchanges() {
    match callback_step::<()>(Some(Ok(verify("s1"))), &"s1".to_string()) {
        CallbackStep::Exchange(v) => {
            assert_eq!(v.nonce, "n0nce");
            assert_eq!(v.pkce_verifier, "pkce");
        }
        _ => panic!("matching state was not let through"),
    }
}

#[test]
fn missing_id_token_fails() {
    assert_eq!(require_id_token::<u8>(None), Err(AuthFailure::MissingIdToken));
    assert_eq!(require_id_token(Some(3u8)), Ok(3u8));
    assert_eq!(AuthFailure::MissingIdToken.message(), "Server did not return an ID token");
    assert_eq!(AuthFailure::InvalidAccessToken.message(), "Invalid access token");
    assert_eq!(
        AuthFailure::UnsupportedAlgorithm.message(),
        "Unsupported signature algorithm: signature algorithm `none` has no corresponding hash algorithm"
    );
}

#[test]
fn access_token_hash_matches_sha256_half() {
    let token = "abc".to_string();
    let ok = check_access_token(
        Some("ungWv48Bz-pBQUDeXa4iIw".to_string()),
        &token,
        SigningAlgorithm::RsaSsaPkcs1V15Sha256,
    );
    assert_eq!(ok, Ok(()));
    let ok384 = check_access_token(
        Some("ywB1P0WjXou1oD1pmsZQBycsMqsO3tFj".to_string()),
        &token,
        SigningAlgorithm::EcdsaP384Sha384,
    );
    assert_eq!(ok384, Ok(()));
    let ok512 = check_access_token(
        Some("3a81oZNherrMQXNJriBBMRLm-k6JqX6iCp7u5ktV05o".to_string()),
        &token,
        SigningAlgorithm::EdDsaEd25519,
    );
    assert_eq!(ok512, Ok(()));
}

#[test]
fn substituted_access_token_is_invalid() {
    let r = check_access_token(
        Some("ungWv48Bz-pBQUDeXa4iIw".to_string()),
        &"abd".to_string(),
        SigningAlgorithm::RsaSsaPssSha256,
    );
    assert_eq!(r, Err(AuthFailure::InvalidAccessToken));
}

#[test]
fn unsigned_token_has_no_hash() {
    let r = check_access_token(Some("x".to_string()), &"abc".to_string(), SigningAlgorithm::Unsigned);
    assert_eq!(r, Err(AuthFailure::UnsupportedAlgorithm));
}

#[test]
fn no_claimed_hash_is_accepted() {
    assert_eq!(check_access_token(None, &"abc".to_string(), SigningAlgorithm::Unsigned), Ok(()));
}

#[test]
fn compare_hash_outcomes() {
    assert_eq!(compare_access_token_hash(&"h".to_string(), Some("h".to_string())), Ok(()));
    assert_eq!(
        compare_access_token_hash(&"h".to_string(), Some("g".to_string())),
        Err(AuthFailure::InvalidAccessToken)
    );
    assert_eq!(
        compare_access_token_hash(&"h".to_string(), None),
        Err(AuthFailure::UnsupportedAlgorithm)
    );
}

#[test]
fn user_info_is_asked_only_when_the_hash_matches() {
    let token = "abc".to_string();
    assert!(matches!(after_claims(None, &token), LoginStep::RequestUserInfo));
    let good = Some(("ungWv48Bz-pBQUDeXa4iIw".to_string(), SigningAlgorithm::RsaSsaPkcs1V15Sha256));
    assert!(matches!(after_claims(good, &token), LoginStep::RequestUserInfo));
    let bad = Some(("x".to_string(), SigningAlgorithm::RsaSsaPkcs1V15Sha256));
    assert!(matches!(after_claims(bad, &token), LoginStep::Failed(AuthFailure::InvalidAccessToken)));
    let unsigned = Some(("x".to_string(), SigningAlgorithm::Unsigned));
    assert!(matches!(
        after_claims(unsigned, &token),
        LoginStep::Failed(AuthFailure::UnsupportedAlgorithm)
    ));
}

fn settings(endpoint: &str, redirect: &str) -> ClientSettings {
    ClientSettings {
        authorization_endpoint: endpoint.to_string(),
        client_id: "timeline-app".to_string(),
        redirect_url: redirect.to_string(),
    }
}

#[test]
fn login_url_carries_client_state_nonce_scopes_and_challenge() {
    let content = get_auth_url(&settings(
        "https://id.example.org/authorize",
        "https://timeline.example.org/login_auth",
    ))
    .unwrap();
    let url = content.redirect_url.clone();
    assert!(url.starts_with("https://id.example.org/authorize?"));
    assert!(url.contains("response_type=code"));
    assert!(url.contains("client_id=timeline-app"));
    assert!(url.contains(&format!("state={}", content.verify.csrf_token)));
    assert!(url.contains(&format!("nonce={}", content.verify.nonce)));
    assert!(url.contains("scope=openid+profile+email"));
    assert!(url.contains("code_challenge_method=S256"));
    assert!(url.contains("redirect_uri=https%3A%2F%2Ftimeline.example.org%2Flogin_auth"));
    assert!(!content.verify.pkce_verifier.is_empty());
}

#[test]
fn two_logins_get_different_states() {
    let s = settings("https://id.example.org/authorize", "https://t.example.org/cb");
    let a = get_auth_url(&s).unwrap();
    let b = get_auth_url(&s).unwrap();
    assert_ne!(a.verify.csrf_token, b.verify.csrf_token);
    assert_ne!(a.verify.nonce, b.verify.nonce);
}

#[test]
fn login_round_trip_reaches_the_exchange() {
    let content = get_auth_url(&settings("https://id.example.org/a", "https://t.example.org/cb")).unwrap();
    let state = content.verify.csrf_token.clone();
    match callback_step::<()>(Some(Ok(content.verify)), &state) {
        CallbackStep::Exchange(v) => assert_eq!(v.csrf_token, state),
        _ => panic!("the login's own state was not let through"),
    }
}

#[test]
fn login_url_needs_urls() {
    assert!(get_auth_url(&settings("not a url", "https://t.example.org/cb")).is_none());
    assert!(get_auth_url(&settings("https://id.example.org/a", "relative/path")).is_none());
}
