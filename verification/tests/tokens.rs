use chrono::{DateTime, TimeDelta, Utc};
use sso::clock::{MAX_TIMESTAMP, MIN_TIMESTAMP};
use sso::records::{Device, User};
use sso::renew::{
    exchange_refresh_token_at, NewTokens, RenewAction, RenewReply, RenewRequest, RenewState,
    RenewToken,
};
use sso::session::{
    create_auth_tokens_at, create_auth_tokens_impl, decode_token_claims, decode_token_claims_at,
    sso_token_claims_at, try_create_auth_tokens, AuthMethod, AuthTokens, BasicTokenClaims,
    BasicTokenClaimsValidation, LoginJwtClaims, ProviderToken, SessionRequest, TokenReading,
    TokenWrapper,
};
use sso::{
    create_auth_tokens, encode_ssotoken_claims, exchange_refresh_token, Clock, Lifetime, SsoConfig,
    SsoError, Step, UtcTime,
};

const AUTHORITY: &str = "https://idp.example.com";

fn config() -> SsoConfig {
    SsoConfig {
        domain: "https://vault.example.com/app".to_owned(),
        domain_origin: "https://vault.example.com".to_owned(),
        login_issuer: "https://vault.example.com|login".to_owned(),
        sso_authority: AUTHORITY.to_owned(),
        sso_auth_only_not_session: false,
        mail_enabled: false,
        sso_default_org_id: None,
        sso_org_auto_provision: false,
        sso_org_invite_auto_accept: false,
        sso_org_auto_confirm: false,
        sso_org_auto_confirm_key: None,
        sso_org_bootstrap: false,
        sso_org_bootstrap_name: None,
        sso_org_bootstrap_billing_email: None,
        sso_org_bootstrap_collection_name: "Default collection".to_owned(),
        sso_org_bot_email: "sso-org-bot@vaultwarden.local".to_owned(),
        default_refresh_validity: Lifetime { secs: 30 * 86_400, nanos: 0 },
        bw_expiration: Lifetime { secs: 300, nanos: 0 },
    }
}

fn device() -> Device {
    Device { uuid: "phone".to_owned(), refresh_token: "device".to_owned(), atype: 1 }
}

fn user() -> User {
    User {
        uuid: "jane".to_owned(),
        email: "jane@example.com".to_owned(),
        name: "Jane".to_owned(),
        public_key: None,
        private_key: None,
        verified_at: None,
    }
}

fn at(secs: i64) -> Clock {
    Clock { utc: UtcTime { secs, nanos: 0 }, unix: secs as u64 }
}

fn reading(exp: u64, issuer: &str, nbf: Option<i64>, iat: Option<i64>) -> TokenReading {
    TokenReading {
        validation: Ok(BasicTokenClaimsValidation { exp, iss: issuer.to_owned() }),
        claims: Some(BasicTokenClaims { iat, nbf, exp: exp as i64 }),
    }
}

fn opaque() -> TokenReading {
    TokenReading { validation: Err("InvalidToken".to_owned()), claims: None }
}

fn token(secret: &str, reading: TokenReading) -> ProviderToken {
    ProviderToken { secret: secret.to_owned(), reading }
}

fn request(
    access: TokenReading,
    refresh: Option<TokenReading>,
    expires_in: Option<u64>,
) -> SessionRequest {
    SessionRequest {
        client_id: Some("web".to_owned()),
        refresh_token: refresh.map(|r| token("refresh", r)),
        access_token: token("access", access),
        expires_in: expires_in.map(|secs| Lifetime { secs, nanos: 0 }),
    }
}

fn made_at(secs: i64, request: SessionRequest) -> Result<AuthTokens, SsoError> {
    create_auth_tokens_at(&config(), &device(), &user(), request, at(secs))
}

fn tried_at(secs: i64, request: SessionRequest) -> Result<AuthTokens, SsoError> {
    try_create_auth_tokens(&config(), &device(), &user(), request, at(secs))
}

fn advanced(state: RenewState, reply: RenewReply) -> Step<RenewState, RenewAction, AuthTokens> {
    state.advance(&config(), &device(), &user(), reply, at(1000))
}

#[test]
fn range_of_instants_is_that_of_chrono() {
    assert_eq!(MAX_TIMESTAMP, DateTime::<Utc>::MAX_UTC.timestamp());
    assert_eq!(MIN_TIMESTAMP, DateTime::<Utc>::MIN_UTC.timestamp());
}

#[test]
fn sso_token_is_good_for_two_minutes() {
    let claims =
        sso_token_claims_at("https://vault.example.com", UtcTime { secs: 1_700_000_000, nanos: 5 });
    assert_eq!(claims.nbf, 1_700_000_000);
    assert_eq!(claims.exp, 1_700_000_120);
    assert_eq!(claims.iss, "https://vault.example.com|sso");
    assert_eq!(claims.sub, "vaultwarden");
}

#[test]
fn sso_token_is_made_now() {
    let before = Utc::now().timestamp();
    let claims = encode_ssotoken_claims(&config()).unwrap();
    let after = Utc::now().timestamp();
    assert!(before <= claims.nbf && claims.nbf <= after);
    assert_eq!(claims.exp, claims.nbf + 120);
}

#[test]
fn not_before_falls_back_to_issued_at_and_then_to_now() {
    let claims = |nbf, iat| BasicTokenClaims { iat, nbf, exp: 9 };
    assert_eq!(claims(Some(1), Some(2)).nbf_at(3), 1);
    assert_eq!(claims(None, Some(2)).nbf_at(3), 2);
    assert_eq!(claims(None, None).nbf_at(3), 3);
    assert_eq!(claims(Some(1), None).nbf(), 1);
    let before = Utc::now().timestamp();
    assert!(claims(None, None).nbf() >= before);
}

#[test]
fn token_counts_for_a_minute_after_it_has_expired() {
    let good = decode_token_claims_at("t", &reading(940, AUTHORITY, None, None), AUTHORITY, 1000);
    assert_eq!(good, Ok(BasicTokenClaims { iat: None, nbf: None, exp: 940 }));
    let late = decode_token_claims_at("t", &reading(939, AUTHORITY, None, None), AUTHORITY, 1000);
    assert_eq!(late, Err(SsoError::ExpiredSignature("t".to_owned())));
}

#[test]
fn token_of_another_issuer_is_refused() {
    let other = reading(2000, "https://idp.example.com/", None, None);
    assert_eq!(
        decode_token_claims_at("t", &other, AUTHORITY, 1000),
        Err(SsoError::InvalidIssuer("t".to_owned()))
    );
}

#[test]
fn expiry_goes_before_the_issuer() {
    let other = reading(1, "https://other.example.com", None, None);
    assert_eq!(
        decode_token_claims_at("t", &other, AUTHORITY, 1000),
        Err(SsoError::ExpiredSignature("t".to_owned()))
    );
}

#[test]
fn token_that_cannot_be_read_is_refused() {
    assert_eq!(
        decode_token_claims_at("t", &opaque(), AUTHORITY, 1000),
        Err(SsoError::UndecodableToken {
            token_name: "t".to_owned(),
            reason: "InvalidToken".to_owned()
        })
    );
}

#[test]
fn token_is_held_against_the_clock() {
    let now = Utc::now().timestamp() as u64;
    let good = reading(now + 1000, AUTHORITY, None, None);
    assert!(decode_token_claims("t", &good, AUTHORITY).is_ok());
    let late = reading(now - 1000, AUTHORITY, None, None);
    assert_eq!(
        decode_token_claims("t", &late, AUTHORITY),
        Err(SsoError::ExpiredSignature("t".to_owned()))
    );
    let huge = TokenReading {
        validation: Ok(BasicTokenClaimsValidation { exp: u64::MAX, iss: AUTHORITY.to_owned() }),
        claims: None,
    };
    assert_eq!(decode_token_claims("t", &huge, AUTHORITY), Err(SsoError::TimeOutOfRange));
}

#[test]
fn session_goes_by_the_times_of_the_tokens() {
    let made = create_auth_tokens_at(
        &config(), &device(), &user(),
        request(
            reading(2000, AUTHORITY, Some(900), None),
            Some(reading(9000, AUTHORITY, None, Some(800))),
            Some(5),
        ),
        at(1000),
    );
    assert_eq!(
        made,
        Ok(AuthTokens::Provider {
            refresh_claims: sso::session::RefreshJwtClaims {
                nbf: 800,
                exp: 9000,
                iss: "https://vault.example.com|login".to_owned(),
                sub: AuthMethod::Sso,
                device_token: "device".to_owned(),
                        token: Some(TokenWrapper::Refresh("refresh".to_owned())),
            },
            access_claims: LoginJwtClaims {
                user_uuid: "jane".to_owned(),
                device_uuid: "phone".to_owned(),
                nbf: 900,
                exp: 2000,
                method: AuthMethod::Sso,
                client_id: Some("web".to_owned()),
                now: UtcTime { secs: 1000, nanos: 0 },
            },
        })
    );
}

#[test]
fn opaque_tokens_are_good_for_as_long_as_is_said() {
    let made =
        made_at(1000, request(opaque(), Some(opaque()), Some(3600)));
    match made {
        Ok(AuthTokens::Provider { refresh_claims, access_claims }) => {
            assert_eq!((access_claims.nbf, access_claims.exp), (1000, 4600));
            assert_eq!((refresh_claims.nbf, refresh_claims.exp), (1000, 1000 + 30 * 86_400));
            assert_eq!(refresh_claims.token, Some(TokenWrapper::Refresh("refresh".to_owned())));
        }
        other => panic!("{other:?}"),
    }
}

#[test]
fn nanoseconds_carry_into_the_next_second() {
    let clock = Clock { utc: UtcTime { secs: 1000, nanos: 600_000_000 }, unix: 1000 };
    let mut asked = request(opaque(), None, None);
    asked.expires_in = Some(Lifetime { secs: 10, nanos: 500_000_000 });
    match create_auth_tokens_at(&config(), &device(), &user(), asked, clock) {
        Ok(AuthTokens::Provider { access_claims, .. }) => {
            let from = DateTime::<Utc>::from_timestamp(1000, 600_000_000).unwrap();
            let sum = from + std::time::Duration::new(10, 500_000_000);
            assert_eq!(access_claims.exp, sum.timestamp());
            assert_eq!(access_claims.exp, 1011);
        }
        other => panic!("{other:?}"),
    }
}

#[test]
fn session_without_refresh_token_is_renewed_by_the_access_token() {
    let made =
        made_at(1000, request(opaque(), None, Some(3600))).unwrap();
    match made {
        AuthTokens::Provider { refresh_claims, access_claims } => {
            assert_eq!(refresh_claims.token, Some(TokenWrapper::Access("access".to_owned())));
            assert_eq!(refresh_claims.nbf, access_claims.nbf);
            assert_eq!(refresh_claims.exp, access_claims.exp);
        }
        other => panic!("{other:?}"),
    }
}

#[test]
fn session_without_an_expiry_is_refused() {
    assert_eq!(
        made_at(1000, request(opaque(), None, None)),
        Err(SsoError::MissingExpiry)
    );
}

#[test]
fn own_session_asks_nothing_of_the_tokens() {
    let mut own = config();
    own.sso_auth_only_not_session = true;
    assert_eq!(
        create_auth_tokens(&own, &device(), &user(), request(opaque(), None, None)),
        Ok(AuthTokens::Own {
            user_uuid: "jane".to_owned(),
            device_uuid: "phone".to_owned(),
            method: AuthMethod::Sso,
            client_id: Some("web".to_owned()),
        })
    );
}

#[test]
fn session_beyond_all_times_is_refused() {
    let endless = request(opaque(), None, Some(u64::MAX));
    assert_eq!(
        try_create_auth_tokens(&config(), &device(), &user(), endless, at(1000)),
        Err(SsoError::TimeOutOfRange)
    );
    let last = request(opaque(), None, Some((MAX_TIMESTAMP - 1000) as u64));
    assert!(try_create_auth_tokens(&config(), &device(), &user(), last, at(1000)).is_ok());
    let over = request(opaque(), None, Some((MAX_TIMESTAMP - 999) as u64));
    assert_eq!(tried_at(1000, over), Err(SsoError::TimeOutOfRange));
    let unheeded = request(reading(2000, AUTHORITY, None, None), None, Some(u64::MAX));
    assert!(try_create_auth_tokens(&config(), &device(), &user(), unheeded, at(1000)).is_ok());
    let early = request(reading(2000, AUTHORITY, None, None), None, None);
    assert_eq!(tried_at(59, early), Err(SsoError::TimeOutOfRange));
}

#[test]
fn opaque_tokens_are_not_held_against_the_clock() {
    let made = try_create_auth_tokens(
        &config(),
        &device(),
        &user(),
        request(opaque(), Some(opaque()), Some(60)),
        at(59),
    );
    match made {
        Ok(AuthTokens::Provider { access_claims, .. }) => {
            assert_eq!((access_claims.nbf, access_claims.exp), (59, 119));
        }
        other => panic!("{other:?}"),
    }
}

#[test]
fn session_is_made_now() {
    let before = Utc::now().timestamp();
    let asked = request(opaque(), Some(opaque()), Some(60));
    match create_auth_tokens(&config(), &device(), &user(), asked) {
        Ok(AuthTokens::Provider { refresh_claims, access_claims }) => {
            assert!(access_claims.nbf >= before && access_claims.nbf <= Utc::now().timestamp());
            assert_eq!(access_claims.exp, access_claims.nbf + 60);
            let span = TimeDelta::try_days(30).unwrap().num_seconds();
            assert_eq!(refresh_claims.exp, refresh_claims.nbf + span);
        }
        other => panic!("{other:?}"),
    }
}

#[test]
fn tokens_with_given_claims() {
    let claims = LoginJwtClaims {
        user_uuid: "jane".to_owned(),
        device_uuid: "phone".to_owned(),
        nbf: 1,
        exp: 2,
        method: AuthMethod::Sso,
        client_id: None,
        now: UtcTime { secs: 3, nanos: 0 },
    };
    let made = create_auth_tokens_impl(
        &config(),
        &device(),
        Some(token("refresh", reading(1, AUTHORITY, None, None))),
        claims,
        "access".to_owned(),
        at(1000),
    );
    match made {
        AuthTokens::Provider { refresh_claims, access_claims } => {
            assert_eq!((access_claims.nbf, access_claims.exp), (1, 2));
            assert_eq!((refresh_claims.nbf, refresh_claims.exp), (1000, 1000 + 30 * 86_400));
        }
        other => panic!("{other:?}"),
    }
}

fn renewal(exp: i64, token: Option<RenewToken>) -> RenewRequest {
    RenewRequest {
        client_id: Some("web".to_owned()),
        exp,
        token,
    }
}

#[test]
fn refresh_token_is_exchanged() {
    let old = RenewToken::Refresh(token("old", opaque()));
    let step = exchange_refresh_token(&config(), renewal(0, Some(old)));
    let state = match step {
        Step::Call(state, RenewAction::ExchangeRefreshToken { refresh_token }) => {
            assert_eq!(refresh_token, "old");
            state
        }
        other => panic!("{other:?}"),
    };
    let reply = RenewReply::Exchanged(Ok(NewTokens {
        refresh_token: Some(token("new", opaque())),
        access_token: token("access", opaque()),
        expires_in: Some(Lifetime { secs: 60, nanos: 0 }),
    }));
    match state.resume(&config(), &device(), &user(), reply) {
        Step::Done(Ok(AuthTokens::Provider { refresh_claims, .. })) => {
            assert_eq!(refresh_claims.token, Some(TokenWrapper::Refresh("new".to_owned())));
        }
        other => panic!("{other:?}"),
    }
}

#[test]
fn refresh_token_is_kept_until_there_is_a_new_one() {
    let state = RenewState::Exchanging {
        client_id: None,
        refresh_token: token("old", reading(5000, AUTHORITY, Some(10), None)),
    };
    let reply = RenewReply::Exchanged(Ok(NewTokens {
        refresh_token: None,
        access_token: token("access", reading(2000, AUTHORITY, Some(20), None)),
        expires_in: None,
    }));
    match state.advance(&config(), &device(), &user(), reply, at(1000)) {
        Step::Done(Ok(AuthTokens::Provider { refresh_claims, access_claims })) => {
            assert_eq!(refresh_claims.token, Some(TokenWrapper::Refresh("old".to_owned())));
            assert_eq!((refresh_claims.nbf, refresh_claims.exp), (10, 5000));
            assert_eq!((access_claims.nbf, access_claims.exp), (20, 2000));
        }
        other => panic!("{other:?}"),
    }
}

#[test]
fn access_token_is_checked_where_it_is_not_about_to_expire() {
    let now = UtcTime { secs: 1000, nanos: 0 };
    let access = || Some(RenewToken::Access("access".to_owned()));
    assert_eq!(
        exchange_refresh_token_at(&config(), renewal(1299, access()), now),
        Step::Done(Err(SsoError::CloseToExpiration))
    );
    let state = match exchange_refresh_token_at(&config(), renewal(1300, access()), now) {
        Step::Call(state, RenewAction::CheckValidity { access_token }) => {
            assert_eq!(access_token, "access");
            state
        }
        other => panic!("{other:?}"),
    };
    match state.advance(&config(), &device(), &user(), RenewReply::Checked(Ok(())), at(1010)) {
        Step::Done(Ok(AuthTokens::Provider { refresh_claims, access_claims })) => {
            assert_eq!((access_claims.nbf, access_claims.exp), (1000, 1300));
            assert_eq!(access_claims.user_uuid, "jane");
            assert_eq!(access_claims.device_uuid, "phone");
            assert_eq!((refresh_claims.nbf, refresh_claims.exp), (1000, 1300));
            assert_eq!(refresh_claims.token, Some(TokenWrapper::Access("access".to_owned())));
        }
        other => panic!("{other:?}"),
    }
}

#[test]
fn renewal_fails_where_the_provider_does() {
    let failure = || SsoError::Backend("no".to_owned());
    let checking = RenewState::Checking {
        client_id: None,
        access_token: "access".to_owned(),
        exp: 1300,
        now: UtcTime { secs: 1000, nanos: 0 },
    };
    assert_eq!(
        advanced(checking, RenewReply::Checked(Err(failure()))),
        Step::Done(Err(failure()))
    );
    let exchanging = || RenewState::Exchanging {
        client_id: None,
        refresh_token: token("old", opaque()),
    };
    assert_eq!(
        advanced(exchanging(), RenewReply::Exchanged(Err(failure()))),
        Step::Done(Err(failure()))
    );
    assert_eq!(
        exchanging().advance(&config(), &device(), &user(), RenewReply::Checked(Ok(())), at(1000)),
        Step::Done(Err(SsoError::UnexpectedReply))
    );
}

#[test]
fn renewal_without_a_token_is_refused() {
    assert_eq!(
        exchange_refresh_token(&config(), renewal(0, None)),
        Step::Done(Err(SsoError::NoToken))
    );
}

#[test]
fn renewal_beyond_all_times_is_refused() {
    let mut endless = config();
    endless.bw_expiration = Lifetime { secs: u64::MAX, nanos: 0 };
    let access = Some(RenewToken::Access("access".to_owned()));
    assert_eq!(
        exchange_refresh_token(&endless, renewal(i64::MAX, access)),
        Step::Done(Err(SsoError::TimeOutOfRange))
    );
}
