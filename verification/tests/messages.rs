use sso::SsoError;

#[test]
fn failures_speak_plainly() {
    let text = |s: &str| s.to_owned();
    let cases = [
        (SsoError::Backend(text("db gone")), "db gone"),
        (SsoError::UnexpectedReply, "The reply does not answer the action"),
        (
            SsoError::ExpiredSignature(text("access_token")),
            "Expired Signature for base token claim from access_token",
        ),
        (
            SsoError::InvalidIssuer(text("refresh_token")),
            "Invalid Issuer for base token claim from refresh_token",
        ),
        (
            SsoError::UndecodableToken { token_name: text("access_token"), reason: text("InvalidToken") },
            "Failed to decode basic token claims from access_token: InvalidToken",
        ),
        (SsoError::InvalidCode, "Invalid code cannot retrieve sso auth"),
        (
            SsoError::AuthorizationFailed { error: text("denied"), description: Some(text("no")) },
            "SSO authorization failed: denied, no",
        ),
        (
            SsoError::AuthorizationFailed { error: text("denied"), description: None },
            "SSO authorization failed: denied, ",
        ),
        (SsoError::MissingProviderReturn, "Missing authorization provider return"),
        (SsoError::MissingEmail, "Neither id token nor userinfo contained an email"),
        (
            SsoError::MissingAutoConfirmKey,
            "SSO_ORG_AUTO_CONFIRM_KEY must be configured when SSO_ORG_AUTO_CONFIRM is enabled",
        ),
        (
            SsoError::MissingPublicKey(text("a@b.c")),
            "SSO auto-confirm requires a public key for a@b.c",
        ),
        (
            SsoError::AutoConfirmKeyNotBase64(text("invalid length at 4")),
            "Failed to decode SSO_ORG_AUTO_CONFIRM_KEY: invalid length at 4",
        ),
        (
            SsoError::AutoConfirmKeyLength,
            "SSO_ORG_AUTO_CONFIRM_KEY must decode to 32 or 64 bytes",
        ),
        (
            SsoError::BotEmailInUse(text("bot@b.c")),
            "SSO_ORG_BOT_EMAIL bot@b.c is already used by an interactive or SSO-linked account",
        ),
        (
            SsoError::MissingBootstrapName,
            "SSO_ORG_BOOTSTRAP_NAME must be configured when SSO_ORG_BOOTSTRAP is enabled",
        ),
        (
            SsoError::MissingBootstrapBillingEmail,
            "SSO_ORG_BOOTSTRAP_BILLING_EMAIL must be configured when SSO_ORG_BOOTSTRAP is enabled",
        ),
        (
            SsoError::DefaultOrgNotFound(text("org")),
            "Configured SSO default organization org does not exist",
        ),
        (
            SsoError::MissingDefaultOrgId,
            "SSO_DEFAULT_ORG_ID must be configured when SSO organization provisioning is enabled",
        ),
        (SsoError::MissingExpiry, "Non jwt access_token and empty expires_in"),
        (
            SsoError::CloseToExpiration,
            "Access token is close to expiration but we have no refresh token",
        ),
        (SsoError::NoToken, "No token present while in SSO"),
        (SsoError::TimeOutOfRange, "Time out of range"),
        (SsoError::TooLong, "Value too long for base64"),
    ];
    for (failure, words) in cases {
        assert_eq!(failure.message(), words);
    }
}

#[test]
fn everyday_failures_are_quiet() {
    let name = || "access_token".to_owned();
    assert!(SsoError::ExpiredSignature(name()).is_quiet());
    assert!(SsoError::InvalidIssuer(name()).is_quiet());
    assert!(SsoError::UndecodableToken { token_name: name(), reason: name() }.is_quiet());
    assert!(SsoError::CloseToExpiration.is_quiet());
    assert!(!SsoError::MissingExpiry.is_quiet());
    assert!(!SsoError::NoToken.is_quiet());
    assert!(!SsoError::Backend(name()).is_quiet());
}
