use sso::login::{
    authenticate, lacks_refresh_token, Exchange, IdClaims, Login, LoginAction, LoginReply,
    LoginState, OIDCAuthenticatedUser, ProviderError, SsoAuth, TokenResponse, UserInfo,
};
use sso::{exchange_code, Lifetime, OIDCCode, OIDCCodeVerifier, SsoError, Step, UtcTime};

fn text(s: &str) -> String {
    s.to_owned()
}

fn sso_auth() -> SsoAuth {
    SsoAuth {
        state: text("state"),
        code_response: Some(text("provider-code")),
        code_response_error: None,
        auth_response: None,
        updated_at: UtcTime { secs: 1, nanos: 0 },
    }
}

fn exchange() -> Exchange {
    Exchange {
        token_response: TokenResponse {
            access_token: text("access"),
            refresh_token: Some(text("refresh")),
            expires_in: Some(Lifetime { secs: 300, nanos: 0 }),
        },
        id_claims: IdClaims {
            issuer: text("https://idp.example.com"),
            subject: text("4711"),
            email: Some(text("Jane.DOE@Example.COM")),
            email_verified: None,
            preferred_username: None,
        },
    }
}

fn info() -> UserInfo {
    UserInfo {
        email: Some(text("other@example.com")),
        email_verified: Some(true),
        preferred_username: Some(text("jane")),
    }
}

fn user() -> OIDCAuthenticatedUser {
    OIDCAuthenticatedUser {
        refresh_token: Some(text("refresh")),
        access_token: text("access"),
        expires_in: Some(Lifetime { secs: 300, nanos: 0 }),
        identifier: text("https://idp.example.com/4711"),
        email: text("jane.doe@example.com"),
        email_verified: Some(true),
        user_name: Some(text("jane")),
    }
}

fn found(found: Option<SsoAuth>) -> Step<LoginState, LoginAction, Login> {
    let step = exchange_code(
        &OIDCCode::from(text("code")),
        OIDCCodeVerifier::from_form(text("verifier")),
    );
    match step {
        Step::Call(state, LoginAction::FindSsoAuth { code }) => {
            assert_eq!(code, "code");
            state.resume(LoginReply::SsoAuth(found))
        }
        other => panic!("{other:?}"),
    }
}

#[test]
fn claims_go_before_user_info_and_email_is_lowered() {
    assert_eq!(authenticate(exchange(), info()), Ok(user()));
}

#[test]
fn email_may_come_from_user_info() {
    let mut bare = exchange();
    bare.id_claims.email = None;
    assert_eq!(authenticate(bare, info()).unwrap().email, "other@example.com");
}

#[test]
fn claims_of_the_token_are_preferred() {
    let mut full = exchange();
    full.id_claims.email_verified = Some(false);
    full.id_claims.preferred_username = Some(text("doe"));
    let user = authenticate(full, info()).unwrap();
    assert_eq!(user.email_verified, Some(false));
    assert_eq!(user.user_name.as_deref(), Some("doe"));
}

#[test]
fn user_without_email_is_refused() {
    let mut bare = exchange();
    bare.id_claims.email = None;
    let mut silent = info();
    silent.email = None;
    assert_eq!(authenticate(bare, silent), Err(SsoError::MissingEmail));
}

#[test]
fn missing_refresh_token_is_noticed() {
    let scopes = vec![text("email"), text("offline_access")];
    let mut tokens = exchange().token_response;
    assert!(!lacks_refresh_token(&tokens, &scopes));
    tokens.refresh_token = None;
    assert!(lacks_refresh_token(&tokens, &scopes));
    assert!(!lacks_refresh_token(&tokens, &vec![text("email"), text("profile")]));
    assert!(!lacks_refresh_token(&tokens, &vec![]));
}

#[test]
fn unknown_code_is_refused() {
    assert_eq!(found(None), Step::Done(Err(SsoError::InvalidCode)));
}

#[test]
fn code_is_exchanged_and_the_answer_is_kept() {
    let state = match found(Some(sso_auth())) {
        Step::Call(state, LoginAction::ExchangeCode { code, code_verifier, sso_auth: sent }) => {
            assert_eq!(code, "provider-code");
            assert_eq!(code_verifier, "verifier");
            assert_eq!(sent, sso_auth());
            state
        }
        other => panic!("{other:?}"),
    };
    let state = match state.resume(LoginReply::Exchanged(Ok(exchange()))) {
        Step::Call(state, LoginAction::FindUserInfo { access_token }) => {
            assert_eq!(access_token, "access");
            state
        }
        other => panic!("{other:?}"),
    };
    let now = UtcTime { secs: 77, nanos: 7 };
    let (state, saved) = match state.advance(LoginReply::UserInfo(Ok(info())), now) {
        Step::Call(state, LoginAction::SaveSsoAuth(saved)) => (state, saved),
        other => panic!("{other:?}"),
    };
    let mut expected = sso_auth();
    expected.auth_response = Some(user());
    expected.updated_at = now;
    assert_eq!(saved, expected);
    let login = match state.resume(LoginReply::Done(Ok(()))) {
        Step::Done(Ok(login)) => login,
        other => panic!("{other:?}"),
    };
    assert_eq!(login, Login { sso_auth: expected, user: user() });
    // The second time around the provider is not asked.
    assert_eq!(found(Some(saved)), Step::Done(Ok(login)));
}

#[test]
fn refused_login_is_deleted() {
    let mut refused = sso_auth();
    refused.code_response_error =
        Some(ProviderError { error: text("access_denied"), error_description: Some(text("no")) });
    let state = match found(Some(refused)) {
        Step::Call(state, LoginAction::DeleteSsoAuth { state: deleted }) => {
            assert_eq!(deleted, "state");
            state
        }
        other => panic!("{other:?}"),
    };
    match state.resume(LoginReply::Done(Ok(()))) {
        Step::Done(Err(failure)) => {
            assert_eq!(failure.message(), "SSO authorization failed: access_denied, no");
        }
        other => panic!("{other:?}"),
    }
}

#[test]
fn unanswered_login_is_deleted() {
    let mut unanswered = sso_auth();
    unanswered.code_response = None;
    let state = match found(Some(unanswered)) {
        Step::Call(state, LoginAction::DeleteSsoAuth { .. }) => state,
        other => panic!("{other:?}"),
    };
    assert_eq!(
        state.resume(LoginReply::Done(Ok(()))),
        Step::Done(Err(SsoError::MissingProviderReturn))
    );
}

#[test]
fn login_that_cannot_be_deleted_fails_for_that() {
    let mut unanswered = sso_auth();
    unanswered.code_response = None;
    let state = match found(Some(unanswered)) {
        Step::Call(state, _) => state,
        other => panic!("{other:?}"),
    };
    let failure = || SsoError::Backend(text("db gone"));
    assert_eq!(state.resume(LoginReply::Done(Err(failure()))), Step::Done(Err(failure())));
}

#[test]
fn provider_failures_end_the_login() {
    let failure = || SsoError::Backend(text("no"));
    let exchanging = || LoginState::Exchanging { sso_auth: sso_auth() };
    assert_eq!(
        exchanging().resume(LoginReply::Exchanged(Err(failure()))),
        Step::Done(Err(failure()))
    );
    let asking = || LoginState::AskingUser { sso_auth: sso_auth(), exchange: exchange() };
    assert_eq!(asking().resume(LoginReply::UserInfo(Err(failure()))), Step::Done(Err(failure())));
    let saving = || LoginState::Saving(Login { sso_auth: sso_auth(), user: user() });
    assert_eq!(saving().resume(LoginReply::Done(Err(failure()))), Step::Done(Err(failure())));
    assert_eq!(
        saving().resume(LoginReply::SsoAuth(None)),
        Step::Done(Err(SsoError::UnexpectedReply))
    );
}
