//! The tokens of a session: those of the provider are held against the clock, and those
//! of the server are made after them.
use vstd::prelude::*;

use crate::clock::{
    law_second_holds_the_end, read_clock, reaches, second_after, timestamp_after, unix_now,
    utc_now, Clock, Lifetime, UtcTime,
};
use crate::config::SsoConfig;
use crate::error::{result_view, SsoError};
use crate::records::{Device, User};
use crate::text::{joined, same_text};

verus! {

/// How long, in seconds, a token still counts after it has expired.
pub const LEEWAY: u64 = 60;

/// The span for which a token is good that only vouches for a login being under way.
pub open spec fn sso_token_lifetime() -> Lifetime {
    Lifetime { secs: 120, nanos: 0 }
}

/// The claims of a token that only vouches for a login being under way.
#[derive(Debug, PartialEq, Eq)]
pub struct SsoTokenJwtClaims<S = String> {
    /// Not before
    pub nbf: i64,
    /// Expiration time
    pub exp: i64,
    /// Issuer
    pub iss: S,
    /// Subject
    pub sub: S,
}

/// The times that a token of the provider claims.
#[derive(Clone, Copy, Debug, PartialEq, Eq, Structural)]
pub struct BasicTokenClaims {
    pub iat: Option<i64>,
    pub nbf: Option<i64>,
    pub exp: i64,
}

/// The claims by which a token of the provider is checked.
#[derive(Debug, PartialEq, Eq)]
pub struct BasicTokenClaimsValidation<S = String> {
    pub exp: u64,
    pub iss: S,
}

/// What was read from a token of the provider: the claims by which it is checked, or why
/// it could not be read, and the times that it claims, where they could be held.
#[derive(Debug, PartialEq, Eq)]
pub struct TokenReading<S = String> {
    pub validation: Result<BasicTokenClaimsValidation<S>, S>,
    pub claims: Option<BasicTokenClaims>,
}

/// A token of the provider, and what was read from it.
#[derive(Debug, PartialEq, Eq)]
pub struct ProviderToken<S = String> {
    pub secret: S,
    pub reading: TokenReading<S>,
}

/// How a user has logged in.
#[derive(Clone, Copy, Debug, PartialEq, Eq, Structural)]
pub enum AuthMethod {
    Sso,
}

/// The token of the provider that a session is renewed by.
#[derive(Debug, PartialEq, Eq)]
pub enum TokenWrapper<S = String> {
    Access(S),
    Refresh(S),
}

/// What the server claims of a login.
#[derive(Debug, PartialEq, Eq)]
pub struct LoginJwtClaims<S = String> {
    /// The user who has logged in.
    pub user_uuid: S,
    /// The device that was used.
    pub device_uuid: S,
    pub nbf: i64,
    pub exp: i64,
    pub method: AuthMethod,
    pub client_id: Option<S>,
    pub now: UtcTime,
}

/// What the server claims of the right to renew a session.
#[derive(Debug, PartialEq, Eq)]
pub struct RefreshJwtClaims<S = String> {
    pub nbf: i64,
    pub exp: i64,
    pub iss: S,
    pub sub: AuthMethod,
    pub device_token: S,
    pub token: Option<TokenWrapper<S>>,
}

/// The tokens of a session.
#[derive(Debug, PartialEq, Eq)]
pub enum AuthTokens<S = String> {
    /// The session is the server's own and goes by its own times.
    Own { user_uuid: S, device_uuid: S, method: AuthMethod, client_id: Option<S> },
    /// The session goes by the times of the provider's tokens.
    Provider { refresh_claims: RefreshJwtClaims<S>, access_claims: LoginJwtClaims<S> },
}

/// What a session is made from.
#[derive(Debug, PartialEq, Eq)]
pub struct SessionRequest<S = String> {
    pub client_id: Option<S>,
    pub refresh_token: Option<ProviderToken<S>>,
    pub access_token: ProviderToken<S>,
    pub expires_in: Option<Lifetime>,
}

impl View for SsoTokenJwtClaims<String> {
    type V = SsoTokenJwtClaims<Seq<char>>;

    open spec fn view(&self) -> SsoTokenJwtClaims<Seq<char>> {
        SsoTokenJwtClaims { nbf: self.nbf, exp: self.exp, iss: self.iss@, sub: self.sub@ }
    }
}

impl View for BasicTokenClaims {
    type V = BasicTokenClaims;

    open spec fn view(&self) -> BasicTokenClaims {
        *self
    }
}

impl View for BasicTokenClaimsValidation<String> {
    type V = BasicTokenClaimsValidation<Seq<char>>;

    open spec fn view(&self) -> BasicTokenClaimsValidation<Seq<char>> {
        BasicTokenClaimsValidation { exp: self.exp, iss: self.iss@ }
    }
}

impl View for TokenReading<String> {
    type V = TokenReading<Seq<char>>;

    open spec fn view(&self) -> TokenReading<Seq<char>> {
        TokenReading {
            validation: match self.validation {
                Ok(validation) => Ok(validation@),
                Err(reason) => Err(reason@),
            },
            claims: self.claims,
        }
    }
}

impl View for ProviderToken<String> {
    type V = ProviderToken<Seq<char>>;

    open spec fn view(&self) -> ProviderToken<Seq<char>> {
        ProviderToken { secret: self.secret@, reading: self.reading@ }
    }
}

impl DeepView for ProviderToken<String> {
    type V = ProviderToken<Seq<char>>;

    open spec fn deep_view(&self) -> ProviderToken<Seq<char>> {
        self@
    }
}

impl View for TokenWrapper<String> {
    type V = TokenWrapper<Seq<char>>;

    open spec fn view(&self) -> TokenWrapper<Seq<char>> {
        match self {
            TokenWrapper::Access(token) => TokenWrapper::Access(token@),
            TokenWrapper::Refresh(token) => TokenWrapper::Refresh(token@),
        }
    }
}

impl DeepView for TokenWrapper<String> {
    type V = TokenWrapper<Seq<char>>;

    open spec fn deep_view(&self) -> TokenWrapper<Seq<char>> {
        self@
    }
}

impl View for LoginJwtClaims<String> {
    type V = LoginJwtClaims<Seq<char>>;

    open spec fn view(&self) -> LoginJwtClaims<Seq<char>> {
        LoginJwtClaims {
            user_uuid: self.user_uuid@,
            device_uuid: self.device_uuid@,
            nbf: self.nbf,
            exp: self.exp,
            method: self.method,
            client_id: self.client_id.deep_view(),
            now: self.now,
        }
    }
}

impl View for RefreshJwtClaims<String> {
    type V = RefreshJwtClaims<Seq<char>>;

    open spec fn view(&self) -> RefreshJwtClaims<Seq<char>> {
        RefreshJwtClaims {
            nbf: self.nbf,
            exp: self.exp,
            iss: self.iss@,
            sub: self.sub,
            device_token: self.device_token@,
            token: self.token.deep_view(),
        }
    }
}

impl View for AuthTokens<String> {
    type V = AuthTokens<Seq<char>>;

    open spec fn view(&self) -> AuthTokens<Seq<char>> {
        match self {
            AuthTokens::Own { user_uuid, device_uuid, method, client_id } => AuthTokens::Own {
                user_uuid: user_uuid@,
                device_uuid: device_uuid@,
                method: *method,
                client_id: client_id.deep_view(),
            },
            AuthTokens::Provider { refresh_claims, access_claims } => AuthTokens::Provider {
                refresh_claims: refresh_claims@,
                access_claims: access_claims@,
            },
        }
    }
}

impl View for SessionRequest<String> {
    type V = SessionRequest<Seq<char>>;

    open spec fn view(&self) -> SessionRequest<Seq<char>> {
        SessionRequest {
            client_id: self.client_id.deep_view(),
            refresh_token: self.refresh_token.deep_view(),
            access_token: self.access_token@,
            expires_in: self.expires_in,
        }
    }
}

/// A result of the session's functions, as specifications see it.
pub type Tokens = Result<AuthTokens<Seq<char>>, SsoError<Seq<char>>>;

/// The claims of a token that vouches for a login being under way, made at the instant.
pub open spec fn sso_token_claims(domain_origin: Seq<char>, now: UtcTime) -> SsoTokenJwtClaims<
    Seq<char>,
> {
    SsoTokenJwtClaims {
        nbf: now.secs,
        exp: second_after(now, sso_token_lifetime()) as i64,
        iss: domain_origin + "|sso"@,
        sub: "vaultwarden"@,
    }
}

/// The claims of a token that vouches for a login being under way, made at the instant.
pub fn sso_token_claims_at(domain_origin: &str, now: UtcTime) -> (claims: SsoTokenJwtClaims)
    requires
        now.wf(),
        reaches(now, sso_token_lifetime()),
    ensures
        claims@ == sso_token_claims(domain_origin@, now),
{
    let exp = timestamp_after(now, Lifetime { secs: 120, nanos: 0 }).unwrap();
    SsoTokenJwtClaims {
        nbf: now.secs,
        exp,
        iss: joined(domain_origin, "|sso"),
        sub: "vaultwarden".to_owned(),
    }
}

/// The claims of such a token, or a failure where no date and time stands for their end.
pub open spec fn sso_token_outcome(domain_origin: Seq<char>, now: UtcTime) -> Result<
    SsoTokenJwtClaims<Seq<char>>,
    SsoError<Seq<char>>,
> {
    if reaches(now, sso_token_lifetime()) {
        Ok(sso_token_claims(domain_origin, now))
    } else {
        Err(SsoError::TimeOutOfRange)
    }
}

/// The claims of a token that vouches for a login being under way, made now; a failure
/// where no date and time stands for their end.
pub fn encode_ssotoken_claims(config: &SsoConfig) -> (claims: Result<SsoTokenJwtClaims, SsoError>)
    ensures
        exists|now: UtcTime| #[trigger]
            now.wf() && result_view(claims) == sso_token_outcome(config@.domain_origin, now),
{
    let now = utc_now();
    match timestamp_after(now, Lifetime { secs: 120, nanos: 0 }) {
        Some(_) => Ok(sso_token_claims_at(&config.domain_origin, now)),
        None => Err(SsoError::TimeOutOfRange),
    }
}

impl BasicTokenClaims {
    /// The second from which on the token is good: the one that it names, or else the one
    /// in which it was issued, or else the present one.
    pub open spec fn nbf_or(self, now: i64) -> i64 {
        match (self.nbf, self.iat) {
            (Some(nbf), _) => nbf,
            (None, Some(iat)) => iat,
            (None, None) => now,
        }
    }

    /// The second from which on the token is good, where `now` is the present one.
    pub fn nbf_at(&self, now: i64) -> (nbf: i64)
        ensures
            nbf == self.nbf_or(now),
    {
        match (self.nbf, self.iat) {
            (Some(nbf), _) => nbf,
            (None, Some(iat)) => iat,
            (None, None) => now,
        }
    }

    /// The second from which on the token is good.
    pub fn nbf(&self) -> (nbf: i64)
        ensures
            exists|now: UtcTime| #[trigger] now.wf() && nbf == self.nbf_or(now.secs),
    {
        let now = utc_now();
        self.nbf_at(now.secs)
    }
}

impl TokenReading<Seq<char>> {
    /// The token has not expired, but for the leeway.
    pub open spec fn current(self, now: u64) -> bool {
        self.validation matches Ok(validation) && validation.exp >= now - LEEWAY
    }

    /// The token is one that the check lets pass.
    pub open spec fn passes(self, sso_authority: Seq<char>, now: u64) -> bool {
        self.current(now) && self.validation->Ok_0.iss == sso_authority
    }

    /// The token, where it could be read, can be held against the clock, and its times can
    /// be held where it passes.
    pub open spec fn fits(self, sso_authority: Seq<char>, now: u64) -> bool {
        &&& self.validation is Ok ==> now >= LEEWAY
        &&& self.passes(sso_authority, now) ==> self.claims is Some
    }

    /// What the check of the token comes to: its times, or why it is refused.
    pub open spec fn checked(
        self,
        token_name: Seq<char>,
        sso_authority: Seq<char>,
        now: u64,
    ) -> Result<BasicTokenClaims, SsoError<Seq<char>>> {
        match self.validation {
            Ok(_) => if !self.current(now) {
                Err(SsoError::ExpiredSignature(token_name))
            } else if !self.passes(sso_authority, now) {
                Err(SsoError::InvalidIssuer(token_name))
            } else {
                Ok(self.claims->0)
            },
            Err(reason) => Err(SsoError::UndecodableToken { token_name, reason }),
        }
    }

    /// What the check of the token comes to, or a failure where it cannot be held against
    /// the clock, or its times cannot be held.
    pub open spec fn outcome(
        self,
        token_name: Seq<char>,
        sso_authority: Seq<char>,
        now: u64,
    ) -> Result<BasicTokenClaims, SsoError<Seq<char>>> {
        if self.fits(sso_authority, now) {
            self.checked(token_name, sso_authority, now)
        } else {
            Err(SsoError::TimeOutOfRange)
        }
    }
}

impl TokenReading<String> {
    /// Whether the token can be held against the clock, and its times can be held where
    /// it passes.
    fn fits_at(&self, sso_authority: &str, now: u64) -> (fits: bool)
        ensures
            fits == self@.fits(sso_authority@, now),
    {
        match &self.validation {
            Ok(validation) => {
                if now < LEEWAY {
                    return false;
                }
                let passes = validation.exp >= now - LEEWAY && same_text(
                    &validation.iss,
                    sso_authority,
                );
                !passes || self.claims.is_some()
            },
            Err(_) => true,
        }
    }
}

/// Checks a token of the provider at the second `now`: it must not have expired more
/// than the leeway ago, and the provider must have issued it.
pub fn decode_token_claims_at(
    token_name: &str,
    reading: &TokenReading,
    sso_authority: &str,
    now: u64,
) -> (claims: Result<BasicTokenClaims, SsoError>)
    requires
        reading@.fits(sso_authority@, now),
    ensures
        result_view(claims) == reading@.checked(token_name@, sso_authority@, now),
{
    match &reading.validation {
        Ok(validation) => {
            if validation.exp < now - LEEWAY {
                return Err(SsoError::ExpiredSignature(token_name.to_owned()));
            }
            if !same_text(&validation.iss, sso_authority) {
                return Err(SsoError::InvalidIssuer(token_name.to_owned()));
            }
            Ok(reading.claims.unwrap())
        },
        Err(reason) => Err(
            SsoError::UndecodableToken { token_name: token_name.to_owned(), reason: reason.clone() },
        ),
    }
}

/// Checks a token of the provider now; a failure where it cannot be held against the
/// clock, or its times cannot be held.
pub fn decode_token_claims(
    token_name: &str,
    reading: &TokenReading,
    sso_authority: &str,
) -> (claims: Result<BasicTokenClaims, SsoError>)
    ensures
        exists|now: u64|
            result_view(claims) == #[trigger] reading@.outcome(token_name@, sso_authority@, now),
{
    let now = unix_now();
    let claims = if reading.fits_at(sso_authority, now) {
        decode_token_claims_at(token_name, reading, sso_authority, now)
    } else {
        Err(SsoError::TimeOutOfRange)
    };
    assert(result_view(claims) == reading@.outcome(token_name@, sso_authority@, now));
    claims
}

/// From when to when the provider's access token is good: by its own times, or else for
/// as long as the provider said from now on.
pub open spec fn access_window(
    config: SsoConfig<Seq<char>>,
    access_token: ProviderToken<Seq<char>>,
    expires_in: Option<Lifetime>,
    clock: Clock,
) -> Result<(i64, i64), SsoError<Seq<char>>> {
    match (
        access_token.reading.checked("access_token"@, config.sso_authority, clock.unix),
        expires_in,
    ) {
        (Ok(claims), _) => Ok((claims.nbf_or(clock.utc.secs), claims.exp)),
        (Err(_), Some(span)) => Ok((clock.utc.secs, second_after(clock.utc, span) as i64)),
        (Err(_), None) => Err(SsoError::MissingExpiry),
    }
}

/// The window of the access token can be worked out.
pub open spec fn access_fits(
    config: SsoConfig<Seq<char>>,
    access_token: ProviderToken<Seq<char>>,
    expires_in: Option<Lifetime>,
    clock: Clock,
) -> bool {
    &&& access_token.reading.fits(config.sso_authority, clock.unix)
    &&& access_token.reading.checked("access_token"@, config.sso_authority, clock.unix) is Err
        && expires_in is Some ==> reaches(clock.utc, expires_in->0)
}

/// From when to when a refresh token of the provider is good: by its own times, or else
/// for the time that refresh tokens are good for.
pub open spec fn refresh_window(
    config: SsoConfig<Seq<char>>,
    refresh_token: ProviderToken<Seq<char>>,
    clock: Clock,
) -> (i64, i64) {
    match refresh_token.reading.checked("refresh_token"@, config.sso_authority, clock.unix) {
        Ok(claims) => (claims.nbf_or(clock.utc.secs), claims.exp),
        Err(_) => (
            clock.utc.secs,
            second_after(clock.utc, config.default_refresh_validity) as i64,
        ),
    }
}

/// The window of the refresh token, if there is one, can be worked out.
pub open spec fn refresh_fits(
    config: SsoConfig<Seq<char>>,
    refresh_token: Option<ProviderToken<Seq<char>>>,
    clock: Clock,
) -> bool {
    refresh_token matches Some(token) ==> {
        &&& token.reading.fits(config.sso_authority, clock.unix)
        &&& token.reading.checked("refresh_token"@, config.sso_authority, clock.unix) is Err
            ==> reaches(clock.utc, config.default_refresh_validity)
    }
}

/// What the server claims of a login by the user with the device.
pub open spec fn login_claims(
    device: Device<Seq<char>>,
    user: User<Seq<char>>,
    nbf: i64,
    exp: i64,
    client_id: Option<Seq<char>>,
    now: UtcTime,
) -> LoginJwtClaims<Seq<char>> {
    LoginJwtClaims {
        user_uuid: user.uuid,
        device_uuid: device.uuid,
        nbf,
        exp,
        method: AuthMethod::Sso,
        client_id,
        now,
    }
}

/// The tokens of a session with the access claims. There is always a right to renew the
/// session: by the provider's refresh token, or else by its access token.
pub open spec fn tokens_with(
    config: SsoConfig<Seq<char>>,
    device: Device<Seq<char>>,
    refresh_token: Option<ProviderToken<Seq<char>>>,
    access_claims: LoginJwtClaims<Seq<char>>,
    access_token: Seq<char>,
    clock: Clock,
) -> AuthTokens<Seq<char>> {
    let (window, token) = match refresh_token {
        Some(token) => (
            refresh_window(config, token, clock),
            TokenWrapper::Refresh(token.secret),
        ),
        None => (
            (access_claims.nbf, access_claims.exp),
            TokenWrapper::Access(access_token),
        ),
    };
    AuthTokens::Provider {
        refresh_claims: RefreshJwtClaims {
            nbf: window.0,
            exp: window.1,
            iss: config.login_issuer,
            sub: AuthMethod::Sso,
            device_token: device.refresh_token,
            token: Some(token),
        },
        access_claims,
    }
}

/// The tokens of a session of the user with the device.
pub open spec fn session_tokens(
    config: SsoConfig<Seq<char>>,
    device: Device<Seq<char>>,
    user: User<Seq<char>>,
    request: SessionRequest<Seq<char>>,
    clock: Clock,
) -> Tokens {
    if config.sso_auth_only_not_session {
        Ok(
            AuthTokens::Own {
                user_uuid: user.uuid,
                device_uuid: device.uuid,
                method: AuthMethod::Sso,
                client_id: request.client_id,
            },
        )
    } else {
        match access_window(config, request.access_token, request.expires_in, clock) {
            Ok((nbf, exp)) => Ok(
                tokens_with(
                    config,
                    device,
                    request.refresh_token,
                    login_claims(device, user, nbf, exp, request.client_id, clock.utc),
                    request.access_token.secret,
                    clock,
                ),
            ),
            Err(error) => Err(error),
        }
    }
}

/// The times of the session's tokens can be worked out.
pub open spec fn session_fits(
    config: SsoConfig<Seq<char>>,
    request: SessionRequest<Seq<char>>,
    clock: Clock,
) -> bool {
    ||| config.sso_auth_only_not_session
    ||| {
        &&& access_fits(config, request.access_token, request.expires_in, clock)
        &&& access_window(config, request.access_token, request.expires_in, clock) is Ok
            ==> refresh_fits(config, request.refresh_token, clock)
    }
}

/// The tokens of a session, or a failure where their times cannot be worked out.
pub open spec fn session_outcome(
    config: SsoConfig<Seq<char>>,
    device: Device<Seq<char>>,
    user: User<Seq<char>>,
    request: SessionRequest<Seq<char>>,
    clock: Clock,
) -> Tokens {
    if session_fits(config, request, clock) {
        session_tokens(config, device, user, request, clock)
    } else {
        Err(SsoError::TimeOutOfRange)
    }
}

/// What the server claims of a login by the user with the device.
pub(crate) fn claims_of_login(
    device: &Device,
    user: &User,
    nbf: i64,
    exp: i64,
    client_id: Option<String>,
    now: UtcTime,
) -> (claims: LoginJwtClaims)
    ensures
        claims@ == login_claims(device@, user@, nbf, exp, client_id.deep_view(), now),
{
    LoginJwtClaims {
        user_uuid: user.uuid.clone(),
        device_uuid: device.uuid.clone(),
        nbf,
        exp,
        method: AuthMethod::Sso,
        client_id,
        now,
    }
}

/// The tokens of a session with the access claims, on the device.
pub fn create_auth_tokens_impl(
    config: &SsoConfig,
    device: &Device,
    refresh_token: Option<ProviderToken>,
    access_claims: LoginJwtClaims,
    access_token: String,
    clock: Clock,
) -> (tokens: AuthTokens)
    requires
        clock.utc.wf(),
        refresh_fits(config@, refresh_token.deep_view(), clock),
    ensures
        tokens@ == tokens_with(
            config@,
            device@,
            refresh_token.deep_view(),
            access_claims@,
            access_token@,
            clock,
        ),
{
    let (nbf, exp, token): (i64, i64, TokenWrapper) = match refresh_token {
        Some(refresh) => {
            let claims = decode_token_claims_at(
                "refresh_token",
                &refresh.reading,
                &config.sso_authority,
                clock.unix,
            );
            match claims {
                Ok(claims) => (
                    claims.nbf_at(clock.utc.secs),
                    claims.exp,
                    TokenWrapper::Refresh(refresh.secret),
                ),
                Err(_) => {
                    let exp = timestamp_after(clock.utc, config.default_refresh_validity).unwrap();
                    (clock.utc.secs, exp, TokenWrapper::Refresh(refresh.secret))
                },
            }
        },
        None => (access_claims.nbf, access_claims.exp, TokenWrapper::Access(access_token)),
    };
    AuthTokens::Provider {
        refresh_claims: RefreshJwtClaims {
            nbf,
            exp,
            iss: config.login_issuer.clone(),
            sub: AuthMethod::Sso,
            device_token: device.refresh_token.clone(),
            token: Some(token),
        },
        access_claims,
    }
}

fn window_of_access(
    config: &SsoConfig,
    access_token: &ProviderToken,
    expires_in: Option<Lifetime>,
    clock: Clock,
) -> (window: Result<(i64, i64), SsoError>)
    requires
        clock.utc.wf(),
        access_fits(config@, access_token@, expires_in, clock),
    ensures
        result_view(window) == access_window(config@, access_token@, expires_in, clock),
{
    let claims = decode_token_claims_at(
        "access_token",
        &access_token.reading,
        &config.sso_authority,
        clock.unix,
    );
    match (claims, expires_in) {
        (Ok(claims), _) => Ok((claims.nbf_at(clock.utc.secs), claims.exp)),
        (Err(_), Some(span)) => Ok(
            (clock.utc.secs, timestamp_after(clock.utc, span).unwrap()),
        ),
        (Err(_), None) => Err(SsoError::MissingExpiry),
    }
}

/// The tokens of a session of the user with the device, made when the clocks show this.
pub fn create_auth_tokens_at(
    config: &SsoConfig,
    device: &Device,
    user: &User,
    request: SessionRequest,
    clock: Clock,
) -> (tokens: Result<AuthTokens, SsoError>)
    requires
        clock.utc.wf(),
        session_fits(config@, request@, clock),
    ensures
        result_view(tokens) == session_tokens(config@, device@, user@, request@, clock),
{
    if config.sso_auth_only_not_session {
        return Ok(
            AuthTokens::Own {
                user_uuid: user.uuid.clone(),
                device_uuid: device.uuid.clone(),
                method: AuthMethod::Sso,
                client_id: request.client_id,
            },
        );
    }
    match window_of_access(config, &request.access_token, request.expires_in, clock) {
        Ok((nbf, exp)) => {
            let access_claims = claims_of_login(
                device,
                user,
                nbf,
                exp,
                request.client_id,
                clock.utc,
            );
            Ok(
                create_auth_tokens_impl(
                    config,
                    device,
                    request.refresh_token,
                    access_claims,
                    request.access_token.secret,
                    clock,
                ),
            )
        },
        Err(error) => Err(error),
    }
}

/// Whether the times of the session's tokens can be worked out.
fn fits_session(config: &SsoConfig, request: &SessionRequest, clock: Clock) -> (fits: bool)
    requires
        clock.utc.wf(),
    ensures
        fits == session_fits(config@, request@, clock),
{
    if config.sso_auth_only_not_session {
        return true;
    }
    let authority = config.sso_authority.as_str();
    let access = &request.access_token.reading;
    if !access.fits_at(authority, clock.unix) {
        return false;
    }
    if decode_token_claims_at("access_token", access, authority, clock.unix).is_err() {
        match request.expires_in {
            Some(span) => {
                if timestamp_after(clock.utc, span).is_none() {
                    return false;
                }
            },
            None => {
                return true;
            },
        }
    }
    match &request.refresh_token {
        Some(refresh) => {
            if !refresh.reading.fits_at(authority, clock.unix) {
                return false;
            }
            decode_token_claims_at("refresh_token", &refresh.reading, authority, clock.unix).is_ok()
                || timestamp_after(clock.utc, config.default_refresh_validity).is_some()
        },
        None => true,
    }
}

/// The tokens of a session, or a failure where their times cannot be worked out, when
/// the clocks show this.
pub fn try_create_auth_tokens(
    config: &SsoConfig,
    device: &Device,
    user: &User,
    request: SessionRequest,
    clock: Clock,
) -> (tokens: Result<AuthTokens, SsoError>)
    requires
        clock.utc.wf(),
    ensures
        result_view(tokens) == session_outcome(config@, device@, user@, request@, clock),
{
    if fits_session(config, &request, clock) {
        create_auth_tokens_at(config, device, user, request, clock)
    } else {
        Err(SsoError::TimeOutOfRange)
    }
}

/// The tokens of a session of the user with the device, made now. A refresh token always
/// comes with them: without one the web vault hides some secrets. Where the provider gave
/// none, its access token stands in, by which it can be asked whether the session is still
/// good.
pub fn create_auth_tokens(
    config: &SsoConfig,
    device: &Device,
    user: &User,
    request: SessionRequest,
) -> (tokens: Result<AuthTokens, SsoError>)
    ensures
        exists|clock: Clock| #[trigger]
            clock.utc.wf() && result_view(tokens) == session_outcome(
                config@,
                device@,
                user@,
                request@,
                clock,
            ),
{
    try_create_auth_tokens(config, device, user, request, read_clock())
}

/// A token passes the check only if the provider has issued it and it has not expired
/// more than the leeway ago.
pub proof fn law_checked_token_is_current_and_ours(
    reading: TokenReading<Seq<char>>,
    token_name: Seq<char>,
    sso_authority: Seq<char>,
    now: u64,
)
    ensures
        reading.checked(token_name, sso_authority, now) is Ok <==> {
            &&& reading.validation is Ok
            &&& reading.validation->Ok_0.iss == sso_authority
            &&& reading.validation->Ok_0.exp + LEEWAY >= now
        },
{
}

/// A session by the provider's tokens can always be renewed: by the provider's refresh
/// token where there is one, and else by its access token, for as long as that is good.
pub proof fn law_session_is_renewable(
    config: SsoConfig<Seq<char>>,
    device: Device<Seq<char>>,
    user: User<Seq<char>>,
    request: SessionRequest<Seq<char>>,
    clock: Clock,
)
    ensures
        session_tokens(config, device, user, request, clock) matches Ok(
            AuthTokens::Provider { refresh_claims, access_claims },
        ) ==> match request.refresh_token {
            Some(token) => refresh_claims.token == Some(TokenWrapper::Refresh(token.secret)),
            None => {
                &&& refresh_claims.token == Some(
                    TokenWrapper::Access(request.access_token.secret),
                )
                &&& refresh_claims.nbf == access_claims.nbf
                &&& refresh_claims.exp == access_claims.exp
            },
        },
{
}

/// A session fails for want of an expiry only where the provider's access token does not
/// pass the check and the provider did not say how long it is good for.
pub proof fn law_session_needs_an_expiry(
    config: SsoConfig<Seq<char>>,
    device: Device<Seq<char>>,
    user: User<Seq<char>>,
    request: SessionRequest<Seq<char>>,
    clock: Clock,
)
    ensures
        session_tokens(config, device, user, request, clock) is Err <==> {
            &&& !config.sso_auth_only_not_session
            &&& request.access_token.reading.checked(
                "access_token"@,
                config.sso_authority,
                clock.unix,
            ) is Err
            &&& request.expires_in is None
        },
{
}

/// A session is that of the user who has logged in, with the device that was used.
pub proof fn law_session_is_the_users(
    config: SsoConfig<Seq<char>>,
    device: Device<Seq<char>>,
    user: User<Seq<char>>,
    request: SessionRequest<Seq<char>>,
    clock: Clock,
)
    ensures
        session_outcome(config, device, user, request, clock) matches Ok(tokens) ==> match tokens {
            AuthTokens::Own { user_uuid, device_uuid, .. } => {
                user_uuid == user.uuid && device_uuid == device.uuid
            },
            AuthTokens::Provider { refresh_claims, access_claims } => {
                &&& access_claims.user_uuid == user.uuid
                &&& access_claims.device_uuid == device.uuid
                &&& refresh_claims.device_token == device.refresh_token
            },
        },
{
}

/// A token is good from the second that it names on; where it names none, from the second
/// in which it was issued; and where it does not say that either, from now on.
pub proof fn law_not_before(claims: BasicTokenClaims, now: i64)
    ensures
        claims.nbf matches Some(nbf) ==> claims.nbf_or(now) == nbf,
        claims.nbf is None ==> (claims.iat matches Some(iat) ==> claims.nbf_or(now) == iat),
        claims.nbf is None && claims.iat is None ==> claims.nbf_or(now) == now,
{
}

/// The token could be read, the provider has issued it, and it has not expired more than a
/// minute ago.
pub open spec fn vouched(reading: TokenReading<Seq<char>>, authority: Seq<char>, now: u64) -> bool {
    reading.validation matches Ok(validation) && validation.iss == authority && validation.exp + 60
        >= now
}

/// A token that passes the check gives the times that were read from it. One that does not
/// is refused for the first reason that there is: it could not be read, it has expired, or
/// somebody else has issued it.
pub proof fn law_token_check(
    reading: TokenReading<Seq<char>>,
    token_name: Seq<char>,
    authority: Seq<char>,
    now: u64,
)
    ensures
        vouched(reading, authority, now) ==> reading.checked(token_name, authority, now) == Ok::<
            _,
            SsoError<Seq<char>>,
        >(reading.claims->0),
        reading.validation matches Err(reason) ==> reading.checked(token_name, authority, now)
            == Err::<BasicTokenClaims, _>(SsoError::UndecodableToken { token_name, reason }),
        reading.validation matches Ok(validation) ==> {
            &&& validation.exp + 60 < now ==> reading.checked(token_name, authority, now) == Err::<
                BasicTokenClaims,
                _,
            >(SsoError::ExpiredSignature(token_name))
            &&& validation.exp + 60 >= now && validation.iss != authority ==> reading.checked(
                token_name,
                authority,
                now,
            ) == Err::<BasicTokenClaims, _>(SsoError::InvalidIssuer(token_name))
        },
        reading.outcome(token_name, authority, now) == if untimely(reading, authority, now) {
            Err(SsoError::TimeOutOfRange)
        } else {
            reading.checked(token_name, authority, now)
        },
{
}

/// The token was read and the clock stands within a minute of its start, or the token passes
/// the check and its times could not be held.
pub open spec fn untimely(
    reading: TokenReading<Seq<char>>,
    authority: Seq<char>,
    now: u64,
) -> bool {
    ||| reading.validation is Ok && now < 60
    ||| vouched(reading, authority, now) && reading.claims is None
}

/// The second in which the span ends that starts now.
pub open spec fn end_of(now: UtcTime, span: Lifetime) -> int {
    ((now.secs + span.secs) * 1_000_000_000 + now.nanos + span.nanos) / 1_000_000_000
}

/// From when to when a token is good: by the times that it claims, where it passes the
/// check, and else from now on for the span.
pub open spec fn good_for(
    token: ProviderToken<Seq<char>>,
    authority: Seq<char>,
    span: Lifetime,
    clock: Clock,
    nbf: i64,
    exp: i64,
) -> bool {
    if vouched(token.reading, authority, clock.unix) {
        let claims = token.reading.claims->0;
        &&& exp == claims.exp
        &&& nbf == match (claims.nbf, claims.iat) {
            (Some(nbf), _) => nbf,
            (None, Some(iat)) => iat,
            (None, None) => clock.utc.secs,
        }
    } else {
        nbf == clock.utc.secs && exp == end_of(clock.utc, span)
    }
}

/// The second in which the span ends is no date and time.
pub open spec fn never_ends(now: UtcTime, span: Lifetime) -> bool {
    end_of(now, span) > 8_210_266_876_799
}

/// What a session by the provider's tokens claims. It is the user's, on the device, for the
/// client, and made now. Its access token is good for as long as the provider's is; the
/// right to renew it is good for as long as the provider's refresh token, or else as the
/// access token itself.
pub proof fn law_session_goes_by_the_tokens(
    config: SsoConfig<Seq<char>>,
    device: Device<Seq<char>>,
    user: User<Seq<char>>,
    request: SessionRequest<Seq<char>>,
    clock: Clock,
)
    ensures
        config.sso_auth_only_not_session ==> session_outcome(config, device, user, request, clock)
            == Ok::<_, SsoError<Seq<char>>>(
            AuthTokens::Own {
                user_uuid: user.uuid,
                device_uuid: device.uuid,
                method: AuthMethod::Sso,
                client_id: request.client_id,
            },
        ),
        !config.sso_auth_only_not_session ==> !(session_outcome(
            config,
            device,
            user,
            request,
            clock,
        ) matches Ok(AuthTokens::Own { .. })),
        session_outcome(config, device, user, request, clock) matches Ok(
            AuthTokens::Provider { refresh_claims, access_claims },
        ) ==> {
            let authority = config.sso_authority;
            let access = request.access_token;
            &&& access_claims.user_uuid == user.uuid
            &&& access_claims.device_uuid == device.uuid
            &&& access_claims.method == AuthMethod::Sso
            &&& access_claims.client_id == request.client_id
            &&& access_claims.now == clock.utc
            &&& vouched(access.reading, authority, clock.unix) || request.expires_in is Some
            &&& good_for(
                access,
                authority,
                request.expires_in->0,
                clock,
                access_claims.nbf,
                access_claims.exp,
            )
            &&& refresh_claims.iss == config.login_issuer
            &&& refresh_claims.sub == AuthMethod::Sso
            &&& refresh_claims.device_token == device.refresh_token
            &&& match request.refresh_token {
                Some(refresh) => {
                    &&& refresh_claims.token == Some(TokenWrapper::Refresh(refresh.secret))
                    &&& good_for(
                        refresh,
                        authority,
                        config.default_refresh_validity,
                        clock,
                        refresh_claims.nbf,
                        refresh_claims.exp,
                    )
                },
                None => {
                    &&& refresh_claims.token == Some(TokenWrapper::Access(access.secret))
                    &&& refresh_claims.nbf == access_claims.nbf
                    &&& refresh_claims.exp == access_claims.exp
                },
            }
        },
{
    law_second_holds_the_end(clock.utc, request.expires_in->0);
    law_second_holds_the_end(clock.utc, config.default_refresh_validity);
}

/// When a session fails. It wants an expiry where its access token does not pass the check
/// and the provider did not say for how long it is good. And there are times that no session
/// can go by: of a token that is untimely, or of a span that never ends.
pub proof fn law_session_fails(
    config: SsoConfig<Seq<char>>,
    device: Device<Seq<char>>,
    user: User<Seq<char>>,
    request: SessionRequest<Seq<char>>,
    clock: Clock,
)
    ensures
        ({
            let outcome = session_outcome(config, device, user, request, clock);
            let authority = config.sso_authority;
            let access = request.access_token.reading;
            let good = vouched(access, authority, clock.unix);
            let lost = untimely(access, authority, clock.unix) || (!good && (request.expires_in
                matches Some(span) && never_ends(clock.utc, span)));
            let refresh_lost = request.refresh_token matches Some(refresh) && (untimely(
                refresh.reading,
                authority,
                clock.unix,
            ) || (!vouched(refresh.reading, authority, clock.unix) && never_ends(
                clock.utc,
                config.default_refresh_validity,
            )));
            let unsaid = !good && request.expires_in is None;
            &&& outcome is Ok <==> config.sso_auth_only_not_session || !(lost || unsaid
                || refresh_lost)
            &&& !config.sso_auth_only_not_session && lost ==> outcome == Err::<
                AuthTokens<Seq<char>>,
                SsoError<Seq<char>>,
            >(SsoError::TimeOutOfRange)
            &&& !config.sso_auth_only_not_session && !lost && unsaid ==> outcome == Err::<
                AuthTokens<Seq<char>>,
                SsoError<Seq<char>>,
            >(SsoError::MissingExpiry)
            &&& !config.sso_auth_only_not_session && !lost && !unsaid && refresh_lost ==> outcome
                == Err::<AuthTokens<Seq<char>>, SsoError<Seq<char>>>(SsoError::TimeOutOfRange)
        }),
{
    law_second_holds_the_end(clock.utc, request.expires_in->0);
    law_second_holds_the_end(clock.utc, config.default_refresh_validity);
}

/// With given claims of access, a session keeps them as they are, and the right to renew it
/// goes by the provider's refresh token, or else by the claims and the access token.
pub proof fn law_given_claims_are_kept(
    config: SsoConfig<Seq<char>>,
    device: Device<Seq<char>>,
    refresh_token: Option<ProviderToken<Seq<char>>>,
    access_claims: LoginJwtClaims<Seq<char>>,
    access_token: Seq<char>,
    clock: Clock,
)
    requires
        refresh_fits(config, refresh_token, clock),
    ensures
        tokens_with(config, device, refresh_token, access_claims, access_token, clock) matches
            AuthTokens::Provider { refresh_claims, access_claims: kept } && {
            &&& kept == access_claims
            &&& refresh_claims.iss == config.login_issuer
            &&& refresh_claims.sub == AuthMethod::Sso
            &&& refresh_claims.device_token == device.refresh_token
            &&& match refresh_token {
                Some(refresh) => {
                    &&& refresh_claims.token == Some(TokenWrapper::Refresh(refresh.secret))
                    &&& good_for(
                        refresh,
                        config.sso_authority,
                        config.default_refresh_validity,
                        clock,
                        refresh_claims.nbf,
                        refresh_claims.exp,
                    )
                },
                None => {
                    &&& refresh_claims.token == Some(TokenWrapper::Access(access_token))
                    &&& refresh_claims.nbf == access_claims.nbf
                    &&& refresh_claims.exp == access_claims.exp
                },
            }
        },
{
    law_second_holds_the_end(clock.utc, config.default_refresh_validity);
}

/// A token that vouches for a login being under way is good for two minutes from the second
/// in which it is made, and says who has made it.
pub proof fn law_sso_token_lasts_two_minutes(domain_origin: Seq<char>, now: UtcTime)
    requires
        now.wf(),
    ensures
        sso_token_outcome(domain_origin, now) == if now.secs + 120 <= 8_210_266_876_799 {
            Ok::<_, SsoError<Seq<char>>>(
                SsoTokenJwtClaims {
                    nbf: now.secs,
                    exp: (now.secs + 120) as i64,
                    iss: domain_origin + "|sso"@,
                    sub: "vaultwarden"@,
                },
            )
        } else {
            Err(SsoError::TimeOutOfRange)
        },
        now.secs + 120 <= 8_210_266_876_799 ==> sso_token_claims(domain_origin, now)
            == sso_token_outcome(domain_origin, now)->Ok_0,
{
}

/// When the right to renew a session can be worked out: always without a refresh token, and
/// with one where it is timely and, if it does not pass the check, the time that refresh
/// tokens are good for ends.
pub proof fn law_right_to_renew_can_be_worked_out(
    config: SsoConfig<Seq<char>>,
    refresh_token: Option<ProviderToken<Seq<char>>>,
    clock: Clock,
)
    ensures
        refresh_token is None ==> refresh_fits(config, refresh_token, clock),
        refresh_token matches Some(refresh) ==> (refresh_fits(config, refresh_token, clock) <==> {
            &&& !untimely(refresh.reading, config.sso_authority, clock.unix)
            &&& vouched(refresh.reading, config.sso_authority, clock.unix) || !never_ends(
                clock.utc,
                config.default_refresh_validity,
            )
        }),
{
    law_second_holds_the_end(clock.utc, config.default_refresh_validity);
}

} // verus!
