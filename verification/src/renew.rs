//! The renewal of a session: it is extended, or found to be still good.
use vstd::prelude::*;

use crate::clock::{
    law_second_holds_the_end, read_clock, reaches, second_after, timestamp_after, utc_now, Clock,
    Lifetime, UtcTime,
};
use crate::config::SsoConfig;
use crate::error::{result_view, SsoError};
use crate::protocol::Step;
use crate::records::{Device, User};
use crate::session::{
    claims_of_login, create_auth_tokens_impl, end_of, good_for, law_session_goes_by_the_tokens,
    login_claims, session_outcome, tokens_with, try_create_auth_tokens, AuthMethod, AuthTokens,
    LoginJwtClaims, ProviderToken, RefreshJwtClaims, SessionRequest, TokenWrapper,
};

verus! {

/// The token of the provider that a session is renewed by; of a refresh token, what was
/// read from it too.
#[derive(Debug, PartialEq, Eq)]
pub enum RenewToken<S = String> {
    Access(S),
    Refresh(ProviderToken<S>),
}

/// What a session is renewed by: the client that asks, when the session ends, and the
/// token.
#[derive(Debug, PartialEq, Eq)]
pub struct RenewRequest<S = String> {
    pub client_id: Option<S>,
    pub exp: i64,
    pub token: Option<RenewToken<S>>,
}

/// What the provider is asked to do.
#[derive(Debug, PartialEq, Eq)]
pub enum RenewAction<S = String> {
    /// Give new tokens for the refresh token.
    ExchangeRefreshToken { refresh_token: S },
    /// Say whether the access token is still good.
    CheckValidity { access_token: S },
}

/// The tokens that the provider gives for a refresh token.
#[derive(Debug, PartialEq, Eq)]
pub struct NewTokens<S = String> {
    pub refresh_token: Option<ProviderToken<S>>,
    pub access_token: ProviderToken<S>,
    pub expires_in: Option<Lifetime>,
}

/// What the provider replies.
#[derive(Debug, PartialEq, Eq)]
pub enum RenewReply<S = String> {
    Exchanged(Result<NewTokens<S>, SsoError<S>>),
    Checked(Result<(), SsoError<S>>),
}

/// How far a renewal has come.
#[derive(Debug, PartialEq, Eq)]
pub enum RenewState<S = String> {
    /// The provider is asked for new tokens.
    Exchanging { client_id: Option<S>, refresh_token: ProviderToken<S> },
    /// The provider is asked whether the session is still good.
    Checking { client_id: Option<S>, access_token: S, exp: i64, now: UtcTime },
}

impl View for RenewToken<String> {
    type V = RenewToken<Seq<char>>;

    open spec fn view(&self) -> RenewToken<Seq<char>> {
        match self {
            RenewToken::Access(token) => RenewToken::Access(token@),
            RenewToken::Refresh(token) => RenewToken::Refresh(token@),
        }
    }
}

impl DeepView for RenewToken<String> {
    type V = RenewToken<Seq<char>>;

    open spec fn deep_view(&self) -> RenewToken<Seq<char>> {
        self@
    }
}

impl View for RenewRequest<String> {
    type V = RenewRequest<Seq<char>>;

    open spec fn view(&self) -> RenewRequest<Seq<char>> {
        RenewRequest {
            client_id: self.client_id.deep_view(),
            exp: self.exp,
            token: self.token.deep_view(),
        }
    }
}

impl View for RenewAction<String> {
    type V = RenewAction<Seq<char>>;

    open spec fn view(&self) -> RenewAction<Seq<char>> {
        match self {
            RenewAction::ExchangeRefreshToken { refresh_token } => {
                RenewAction::ExchangeRefreshToken { refresh_token: refresh_token@ }
            },
            RenewAction::CheckValidity { access_token } => RenewAction::CheckValidity {
                access_token: access_token@,
            },
        }
    }
}

impl View for NewTokens<String> {
    type V = NewTokens<Seq<char>>;

    open spec fn view(&self) -> NewTokens<Seq<char>> {
        NewTokens {
            refresh_token: self.refresh_token.deep_view(),
            access_token: self.access_token@,
            expires_in: self.expires_in,
        }
    }
}

impl View for RenewReply<String> {
    type V = RenewReply<Seq<char>>;

    open spec fn view(&self) -> RenewReply<Seq<char>> {
        match self {
            RenewReply::Exchanged(tokens) => RenewReply::Exchanged(result_view(*tokens)),
            RenewReply::Checked(result) => RenewReply::Checked(result_view(*result)),
        }
    }
}

impl View for RenewState<String> {
    type V = RenewState<Seq<char>>;

    open spec fn view(&self) -> RenewState<Seq<char>> {
        match self {
            RenewState::Exchanging { client_id, refresh_token } => RenewState::Exchanging {
                client_id: client_id.deep_view(),
                refresh_token: refresh_token@,
            },
            RenewState::Checking { client_id, access_token, exp, now } => RenewState::Checking {
                client_id: client_id.deep_view(),
                access_token: access_token@,
                exp: *exp,
                now: *now,
            },
        }
    }
}

/// A step of a renewal, as specifications see it.
pub type RenewStep = Step<
    RenewState<Seq<char>>,
    RenewAction<Seq<char>>,
    AuthTokens<Seq<char>>,
    Seq<char>,
>;

/// The end of the time in which a session counts as about to expire can be worked out,
/// where it is asked for.
pub open spec fn renew_fits(
    config: SsoConfig<Seq<char>>,
    request: RenewRequest<Seq<char>>,
    now: UtcTime,
) -> bool {
    request.token matches Some(RenewToken::Access(_)) ==> reaches(now, config.bw_expiration)
}

/// The first step of a renewal at the instant.
pub open spec fn renew_start(
    config: SsoConfig<Seq<char>>,
    request: RenewRequest<Seq<char>>,
    now: UtcTime,
) -> RenewStep {
    match request.token {
        Some(RenewToken::Refresh(token)) => Step::Call(
            RenewState::Exchanging {
                client_id: request.client_id,
                refresh_token: token,
            },
            RenewAction::ExchangeRefreshToken { refresh_token: token.secret },
        ),
        Some(RenewToken::Access(access_token)) => {
            if request.exp < second_after(now, config.bw_expiration) {
                Step::Done(Err(SsoError::CloseToExpiration))
            } else {
                Step::Call(
                    RenewState::Checking {
                        client_id: request.client_id,
                        access_token,
                        exp: request.exp,
                        now,
                    },
                    RenewAction::CheckValidity { access_token },
                )
            }
        },
        None => Step::Done(Err(SsoError::NoToken)),
    }
}

/// The first step of a renewal, or a failure where the times cannot be worked out.
pub open spec fn renew_outcome(
    config: SsoConfig<Seq<char>>,
    request: RenewRequest<Seq<char>>,
    now: UtcTime,
) -> RenewStep {
    if renew_fits(config, request, now) {
        renew_start(config, request, now)
    } else {
        Step::Done(Err(SsoError::TimeOutOfRange))
    }
}

impl RenewState<Seq<char>> {
    /// The step that follows a reply. The refresh token is used on where the provider
    /// gives no new one.
    pub open spec fn after(
        self,
        config: SsoConfig<Seq<char>>,
        device: Device<Seq<char>>,
        user: User<Seq<char>>,
        reply: RenewReply<Seq<char>>,
        clock: Clock,
    ) -> RenewStep {
        match (self, reply) {
            (
                RenewState::Exchanging { client_id, refresh_token },
                RenewReply::Exchanged(Ok(tokens)),
            ) => Step::Done(
                session_outcome(
                    config,
                    device,
                    user,
                    SessionRequest {
                        client_id,
                        refresh_token: match tokens.refresh_token {
                            Some(token) => Some(token),
                            None => Some(refresh_token),
                        },
                        access_token: tokens.access_token,
                        expires_in: tokens.expires_in,
                    },
                    clock,
                ),
            ),
            (RenewState::Exchanging { .. }, RenewReply::Exchanged(Err(error))) => {
                Step::Done(Err(error))
            },
            (
                RenewState::Checking { client_id, access_token, exp, now },
                RenewReply::Checked(Ok(_)),
            ) => Step::Done(
                Ok(
                    tokens_with(
                        config,
                        device,
                        None,
                        login_claims(device, user, now.secs, exp, client_id, now),
                        access_token,
                        clock,
                    ),
                ),
            ),
            (RenewState::Checking { .. }, RenewReply::Checked(Err(error))) => {
                Step::Done(Err(error))
            },
            _ => Step::Done(Err(SsoError::UnexpectedReply)),
        }
    }
}

/// Renews a session at the instant: the first step.
pub fn exchange_refresh_token_at(config: &SsoConfig, request: RenewRequest, now: UtcTime) -> (step:
    Step<RenewState, RenewAction, AuthTokens>)
    requires
        now.wf(),
        renew_fits(config@, request@, now),
    ensures
        step@ == renew_start(config@, request@, now),
{
    match request.token {
        Some(RenewToken::Refresh(token)) => {
            let sent = token.secret.clone();
            Step::Call(
                RenewState::Exchanging {
                    client_id: request.client_id,
                    refresh_token: token,
                },
                RenewAction::ExchangeRefreshToken { refresh_token: sent },
            )
        },
        Some(RenewToken::Access(access_token)) => {
            let limit = timestamp_after(now, config.bw_expiration).unwrap();
            if request.exp < limit {
                return Step::Done(Err(SsoError::CloseToExpiration));
            }
            let sent = access_token.clone();
            Step::Call(
                RenewState::Checking {
                    client_id: request.client_id,
                    access_token,
                    exp: request.exp,
                    now,
                },
                RenewAction::CheckValidity { access_token: sent },
            )
        },
        None => Step::Done(Err(SsoError::NoToken)),
    }
}

/// Renews a session now: the first step. It is asked for when a session is close to its
/// end and is to be extended, and when a user is about to act and the session must still
/// be good.
pub fn exchange_refresh_token(config: &SsoConfig, request: RenewRequest) -> (step: Step<
    RenewState,
    RenewAction,
    AuthTokens,
>)
    ensures
        exists|now: UtcTime| #[trigger]
            now.wf() && step@ == renew_outcome(config@, request@, now),
{
    let now = utc_now();
    let fits = match &request.token {
        Some(RenewToken::Access(_)) => timestamp_after(now, config.bw_expiration).is_some(),
        _ => true,
    };
    if fits {
        exchange_refresh_token_at(config, request, now)
    } else {
        Step::Done(Err(SsoError::TimeOutOfRange))
    }
}

impl RenewState<String> {
    /// The step that follows a reply, when the clocks show this.
    pub fn advance(
        self,
        config: &SsoConfig,
        device: &Device,
        user: &User,
        reply: RenewReply,
        clock: Clock,
    ) -> (step: Step<RenewState, RenewAction, AuthTokens>)
        requires
            clock.utc.wf(),
        ensures
            step@ == self@.after(config@, device@, user@, reply@, clock),
    {
        match (self, reply) {
            (
                RenewState::Exchanging { client_id, refresh_token },
                RenewReply::Exchanged(exchanged),
            ) => match exchanged {
                Ok(tokens) => {
                    let request = SessionRequest {
                        client_id,
                        refresh_token: match tokens.refresh_token {
                            Some(token) => Some(token),
                            None => Some(refresh_token),
                        },
                        access_token: tokens.access_token,
                        expires_in: tokens.expires_in,
                    };
                    Step::Done(try_create_auth_tokens(config, device, user, request, clock))
                },
                Err(error) => Step::Done(Err(error)),
            },
            (
                RenewState::Checking { client_id, access_token, exp, now },
                RenewReply::Checked(checked),
            ) => match checked {
                Ok(()) => {
                    let access_claims = claims_of_login(
                        device,
                        user,
                        now.secs,
                        exp,
                        client_id,
                        now,
                    );
                    Step::Done(
                        Ok(
                            create_auth_tokens_impl(
                                config,
                                device,
                                None,
                                access_claims,
                                access_token,
                                clock,
                            ),
                        ),
                    )
                },
                Err(error) => Step::Done(Err(error)),
            },
            _ => Step::Done(Err(SsoError::UnexpectedReply)),
        }
    }

    /// The step that follows a reply now.
    pub fn resume(
        self,
        config: &SsoConfig,
        device: &Device,
        user: &User,
        reply: RenewReply,
    ) -> (step: Step<RenewState, RenewAction, AuthTokens>)
        ensures
            exists|clock: Clock| #[trigger]
                clock.utc.wf() && step@ == self@.after(config@, device@, user@, reply@, clock),
    {
        self.advance(config, device, user, reply, read_clock())
    }
}

/// A refresh token is used on until the provider gives a new one: the session that is
/// renewed by it can be renewed again by one of the two.
pub proof fn law_refresh_token_is_kept(
    config: SsoConfig<Seq<char>>,
    device: Device<Seq<char>>,
    user: User<Seq<char>>,
    client_id: Option<Seq<char>>,
    refresh_token: ProviderToken<Seq<char>>,
    tokens: NewTokens<Seq<char>>,
    clock: Clock,
)
    ensures
        (RenewState::Exchanging { client_id, refresh_token }).after(
            config,
            device,
            user,
            RenewReply::Exchanged(Ok(tokens)),
            clock,
        ) matches Step::Done(Ok(AuthTokens::Provider { refresh_claims, .. }))
            ==> refresh_claims.token == Some(
            TokenWrapper::Refresh(
                match tokens.refresh_token {
                    Some(token) => token.secret,
                    None => refresh_token.secret,
                },
            ),
        ),
{
}

/// A session that has only an access token keeps its end when it is found to be still
/// good: it cannot be extended that way.
pub proof fn law_access_token_does_not_extend(
    config: SsoConfig<Seq<char>>,
    device: Device<Seq<char>>,
    user: User<Seq<char>>,
    client_id: Option<Seq<char>>,
    access_token: Seq<char>,
    exp: i64,
    now: UtcTime,
    clock: Clock,
)
    ensures
        (RenewState::Checking { client_id, access_token, exp, now }).after(
            config,
            device,
            user,
            RenewReply::Checked(Ok(())),
            clock,
        ) matches Step::Done(Ok(AuthTokens::Provider { refresh_claims, access_claims }))
            && refresh_claims.exp == exp && access_claims.exp == exp && refresh_claims.token
            == Some(TokenWrapper::Access(access_token)),
{
}

/// How a renewal begins. By a refresh token, the provider is asked to exchange just this
/// one. By an access token, the provider is asked whether just this one is still good,
/// unless the session ends before the time is over in which it counts as about to expire.
/// By neither, it fails.
pub proof fn law_renewal_begins_with_the_token(
    config: SsoConfig<Seq<char>>,
    request: RenewRequest<Seq<char>>,
    now: UtcTime,
)
    ensures
        request.token matches Some(RenewToken::Refresh(token)) ==> renew_outcome(
            config,
            request,
            now,
        ) == RenewStep::Call(
            RenewState::Exchanging { client_id: request.client_id, refresh_token: token },
            RenewAction::ExchangeRefreshToken { refresh_token: token.secret },
        ),
        request.token matches Some(RenewToken::Access(token)) ==> {
            let limit = end_of(now, config.bw_expiration);
            renew_outcome(config, request, now) == if limit > 8_210_266_876_799 {
                RenewStep::Done(Err(SsoError::TimeOutOfRange))
            } else if request.exp < limit {
                RenewStep::Done(Err(SsoError::CloseToExpiration))
            } else {
                RenewStep::Call(
                    RenewState::Checking {
                        client_id: request.client_id,
                        access_token: token,
                        exp: request.exp,
                        now,
                    },
                    RenewAction::CheckValidity { access_token: token },
                )
            }
        },
        request.token is None ==> renew_outcome(config, request, now) == RenewStep::Done(
            Err(SsoError::NoToken),
        ),
        renew_fits(config, request, now) ==> renew_start(config, request, now) == renew_outcome(
            config,
            request,
            now,
        ),
        renew_fits(config, request, now) <==> !(request.token matches Some(RenewToken::Access(_))
            && end_of(now, config.bw_expiration) > 8_210_266_876_799),
{
    law_second_holds_the_end(now, config.bw_expiration);
}

/// A session that is renewed is the one that would begin with the tokens that the provider
/// gives: for the same client, with its access token and for as long as it says, and with
/// its refresh token, or else the one that was exchanged.
pub proof fn law_renewed_session_is_a_new_one(
    config: SsoConfig<Seq<char>>,
    device: Device<Seq<char>>,
    user: User<Seq<char>>,
    client_id: Option<Seq<char>>,
    refresh_token: ProviderToken<Seq<char>>,
    tokens: NewTokens<Seq<char>>,
    clock: Clock,
)
    ensures
        (RenewState::Exchanging { client_id, refresh_token }).after(
            config,
            device,
            user,
            RenewReply::Exchanged(Ok(tokens)),
            clock,
        ) == RenewStep::Done(
            session_outcome(
                config,
                device,
                user,
                SessionRequest {
                    client_id,
                    refresh_token: Some(
                        if tokens.refresh_token is Some {
                            tokens.refresh_token->0
                        } else {
                            refresh_token
                        },
                    ),
                    access_token: tokens.access_token,
                    expires_in: tokens.expires_in,
                },
                clock,
            ),
        ),
{
}

/// For how long a renewed session is good: as its new access token claims, where that passes
/// the check, and else for as long as the provider said.
pub proof fn law_renewed_session_lasts_as_said(
    config: SsoConfig<Seq<char>>,
    device: Device<Seq<char>>,
    user: User<Seq<char>>,
    client_id: Option<Seq<char>>,
    refresh_token: ProviderToken<Seq<char>>,
    tokens: NewTokens<Seq<char>>,
    clock: Clock,
)
    ensures
        (RenewState::Exchanging { client_id, refresh_token }).after(
            config,
            device,
            user,
            RenewReply::Exchanged(Ok(tokens)),
            clock,
        ) matches Step::Done(Ok(AuthTokens::Provider { refresh_claims, access_claims })) ==> {
            &&& good_for(
                tokens.access_token,
                config.sso_authority,
                tokens.expires_in->0,
                clock,
                access_claims.nbf,
                access_claims.exp,
            )
            &&& access_claims.user_uuid == user.uuid
            &&& access_claims.device_uuid == device.uuid
            &&& access_claims.client_id == client_id
            &&& refresh_claims.device_token == device.refresh_token
        },
{
    law_session_goes_by_the_tokens(
        config,
        device,
        user,
        SessionRequest {
            client_id,
            refresh_token: Some(
                match tokens.refresh_token {
                    Some(token) => token,
                    None => refresh_token,
                },
            ),
            access_token: tokens.access_token,
            expires_in: tokens.expires_in,
        },
        clock,
    );
}

/// A session that is found to be still good goes on to the end that it had: its tokens are
/// made anew, from when it was asked about, for the same client, and by the same access
/// token.
pub proof fn law_good_session_goes_on(
    config: SsoConfig<Seq<char>>,
    device: Device<Seq<char>>,
    user: User<Seq<char>>,
    client_id: Option<Seq<char>>,
    access_token: Seq<char>,
    exp: i64,
    now: UtcTime,
    clock: Clock,
)
    ensures
        (RenewState::Checking { client_id, access_token, exp, now }).after(
            config,
            device,
            user,
            RenewReply::Checked(Ok(())),
            clock,
        ) == RenewStep::Done(
            Ok(
                AuthTokens::Provider {
                    refresh_claims: RefreshJwtClaims {
                        nbf: now.secs,
                        exp,
                        iss: config.login_issuer,
                        sub: AuthMethod::Sso,
                        device_token: device.refresh_token,
                        token: Some(TokenWrapper::Access(access_token)),
                    },
                    access_claims: LoginJwtClaims {
                        user_uuid: user.uuid,
                        device_uuid: device.uuid,
                        nbf: now.secs,
                        exp,
                        method: AuthMethod::Sso,
                        client_id,
                        now,
                    },
                },
            ),
        ),
{
}

/// A renewal fails where the provider does, for the same reason, and where it is told
/// something that it did not ask. It asks but once.
pub proof fn law_renewal_fails_with_the_provider(
    config: SsoConfig<Seq<char>>,
    device: Device<Seq<char>>,
    user: User<Seq<char>>,
    state: RenewState<Seq<char>>,
    reply: RenewReply<Seq<char>>,
    clock: Clock,
)
    ensures
        ({
            let step = state.after(config, device, user, reply, clock);
            &&& step is Done
            &&& match (state, reply) {
                (RenewState::Exchanging { .. }, RenewReply::Exchanged(Err(error))) => step
                    == RenewStep::Done(Err(error)),
                (RenewState::Checking { .. }, RenewReply::Checked(Err(error))) => step
                    == RenewStep::Done(Err(error)),
                (RenewState::Exchanging { .. }, RenewReply::Checked(_)) => step == RenewStep::Done(
                    Err(SsoError::UnexpectedReply),
                ),
                (RenewState::Checking { .. }, RenewReply::Exchanged(_)) => step == RenewStep::Done(
                    Err(SsoError::UnexpectedReply),
                ),
                _ => true,
            }
        }),
{
}

} // verus!
