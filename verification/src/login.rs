//! The exchange of a code for what the provider knows of the user.
//!
//! A login that needs a second factor comes here twice: the first time the user is
//! found out, and only then that a second factor is needed; the second time the answer
//! of the first is used again, since a code can be exchanged but once.
use vstd::prelude::*;

use crate::clock::{utc_now, Lifetime, UtcTime};
use crate::config::SsoConfig;
use crate::error::{result_view, SsoError};
use crate::oidc::{identifier_of, OIDCCode, OIDCCodeVerifier, OIDCIdentifier};
use crate::protocol::Step;
use crate::text::{ascii_lowered, copy_of, is_ascii_text, lowercase, same_text};

verus! {

/// What the provider says where it refuses a login.
#[derive(Debug, PartialEq, Eq)]
pub struct ProviderError<S = String> {
    pub error: S,
    pub error_description: Option<S>,
}

/// What is known of a user whom the provider vouches for.
#[derive(Debug, PartialEq, Eq)]
pub struct OIDCAuthenticatedUser<S = String> {
    pub refresh_token: Option<S>,
    pub access_token: S,
    pub expires_in: Option<Lifetime>,
    pub identifier: S,
    pub email: S,
    pub email_verified: Option<bool>,
    pub user_name: Option<S>,
}

/// A login that is under way.
#[derive(Debug, PartialEq, Eq)]
pub struct SsoAuth<S = String> {
    pub state: S,
    pub code_response: Option<S>,
    pub code_response_error: Option<ProviderError<S>>,
    pub auth_response: Option<OIDCAuthenticatedUser<S>>,
    pub updated_at: UtcTime,
}

/// The tokens that the provider gives for a code.
#[derive(Debug, PartialEq, Eq)]
pub struct TokenResponse<S = String> {
    pub access_token: S,
    pub refresh_token: Option<S>,
    pub expires_in: Option<Lifetime>,
}

/// What the identity token claims of the user.
#[derive(Debug, PartialEq, Eq)]
pub struct IdClaims<S = String> {
    pub issuer: S,
    pub subject: S,
    pub email: Option<S>,
    pub email_verified: Option<bool>,
    pub preferred_username: Option<S>,
}

/// What the provider says of the user when it is asked.
#[derive(Debug, PartialEq, Eq)]
pub struct UserInfo<S = String> {
    pub email: Option<S>,
    pub email_verified: Option<bool>,
    pub preferred_username: Option<S>,
}

/// What a code was exchanged for.
#[derive(Debug, PartialEq, Eq)]
pub struct Exchange<S = String> {
    pub token_response: TokenResponse<S>,
    pub id_claims: IdClaims<S>,
}

/// A login that has come to its end.
#[derive(Debug, PartialEq, Eq)]
pub struct Login<S = String> {
    pub sso_auth: SsoAuth<S>,
    pub user: OIDCAuthenticatedUser<S>,
}

/// What the server and the provider are asked to do.
#[derive(Debug, PartialEq, Eq)]
pub enum LoginAction<S = String> {
    FindSsoAuth { code: S },
    DeleteSsoAuth { state: S },
    SaveSsoAuth(SsoAuth<S>),
    /// Give tokens for the code.
    ExchangeCode { code: S, code_verifier: S, sso_auth: SsoAuth<S> },
    /// Say who the user with the access token is.
    FindUserInfo { access_token: S },
}

/// What they reply.
#[derive(Debug, PartialEq, Eq)]
pub enum LoginReply<S = String> {
    SsoAuth(Option<SsoAuth<S>>),
    Exchanged(Result<Exchange<S>, SsoError<S>>),
    UserInfo(Result<UserInfo<S>, SsoError<S>>),
    /// An action that gives nothing back is done, or has failed.
    Done(Result<(), SsoError<S>>),
}

/// How far an exchange has come.
#[derive(Debug, PartialEq, Eq)]
pub enum LoginState<S = String> {
    /// The login is looked up.
    Finding { code_verifier: S },
    /// The login has failed, and is deleted.
    Deleting { error: SsoError<S> },
    /// The code is exchanged.
    Exchanging { sso_auth: SsoAuth<S> },
    /// The provider is asked who the user is.
    AskingUser { sso_auth: SsoAuth<S>, exchange: Exchange<S> },
    /// The answer is written down.
    Saving(Login<S>),
}

impl View for ProviderError<String> {
    type V = ProviderError<Seq<char>>;

    open spec fn view(&self) -> ProviderError<Seq<char>> {
        ProviderError {
            error: self.error@,
            error_description: self.error_description.deep_view(),
        }
    }
}

impl DeepView for ProviderError<String> {
    type V = ProviderError<Seq<char>>;

    open spec fn deep_view(&self) -> ProviderError<Seq<char>> {
        self@
    }
}

impl View for OIDCAuthenticatedUser<String> {
    type V = OIDCAuthenticatedUser<Seq<char>>;

    open spec fn view(&self) -> OIDCAuthenticatedUser<Seq<char>> {
        OIDCAuthenticatedUser {
            refresh_token: self.refresh_token.deep_view(),
            access_token: self.access_token@,
            expires_in: self.expires_in,
            identifier: self.identifier@,
            email: self.email@,
            email_verified: self.email_verified,
            user_name: self.user_name.deep_view(),
        }
    }
}

impl DeepView for OIDCAuthenticatedUser<String> {
    type V = OIDCAuthenticatedUser<Seq<char>>;

    open spec fn deep_view(&self) -> OIDCAuthenticatedUser<Seq<char>> {
        self@
    }
}

impl View for SsoAuth<String> {
    type V = SsoAuth<Seq<char>>;

    open spec fn view(&self) -> SsoAuth<Seq<char>> {
        SsoAuth {
            state: self.state@,
            code_response: self.code_response.deep_view(),
            code_response_error: self.code_response_error.deep_view(),
            auth_response: self.auth_response.deep_view(),
            updated_at: self.updated_at,
        }
    }
}

impl DeepView for SsoAuth<String> {
    type V = SsoAuth<Seq<char>>;

    open spec fn deep_view(&self) -> SsoAuth<Seq<char>> {
        self@
    }
}

impl View for TokenResponse<String> {
    type V = TokenResponse<Seq<char>>;

    open spec fn view(&self) -> TokenResponse<Seq<char>> {
        TokenResponse {
            access_token: self.access_token@,
            refresh_token: self.refresh_token.deep_view(),
            expires_in: self.expires_in,
        }
    }
}

impl View for IdClaims<String> {
    type V = IdClaims<Seq<char>>;

    open spec fn view(&self) -> IdClaims<Seq<char>> {
        IdClaims {
            issuer: self.issuer@,
            subject: self.subject@,
            email: self.email.deep_view(),
            email_verified: self.email_verified,
            preferred_username: self.preferred_username.deep_view(),
        }
    }
}

impl View for UserInfo<String> {
    type V = UserInfo<Seq<char>>;

    open spec fn view(&self) -> UserInfo<Seq<char>> {
        UserInfo {
            email: self.email.deep_view(),
            email_verified: self.email_verified,
            preferred_username: self.preferred_username.deep_view(),
        }
    }
}

impl View for Exchange<String> {
    type V = Exchange<Seq<char>>;

    open spec fn view(&self) -> Exchange<Seq<char>> {
        Exchange { token_response: self.token_response@, id_claims: self.id_claims@ }
    }
}

impl View for Login<String> {
    type V = Login<Seq<char>>;

    open spec fn view(&self) -> Login<Seq<char>> {
        Login { sso_auth: self.sso_auth@, user: self.user@ }
    }
}

impl View for LoginAction<String> {
    type V = LoginAction<Seq<char>>;

    open spec fn view(&self) -> LoginAction<Seq<char>> {
        match self {
            LoginAction::FindSsoAuth { code } => LoginAction::FindSsoAuth { code: code@ },
            LoginAction::DeleteSsoAuth { state } => LoginAction::DeleteSsoAuth { state: state@ },
            LoginAction::SaveSsoAuth(sso_auth) => LoginAction::SaveSsoAuth(sso_auth@),
            LoginAction::ExchangeCode { code, code_verifier, sso_auth } => {
                LoginAction::ExchangeCode {
                    code: code@,
                    code_verifier: code_verifier@,
                    sso_auth: sso_auth@,
                }
            },
            LoginAction::FindUserInfo { access_token } => LoginAction::FindUserInfo {
                access_token: access_token@,
            },
        }
    }
}

impl View for LoginReply<String> {
    type V = LoginReply<Seq<char>>;

    open spec fn view(&self) -> LoginReply<Seq<char>> {
        match self {
            LoginReply::SsoAuth(found) => LoginReply::SsoAuth(found.deep_view()),
            LoginReply::Exchanged(exchange) => LoginReply::Exchanged(result_view(*exchange)),
            LoginReply::UserInfo(info) => LoginReply::UserInfo(result_view(*info)),
            LoginReply::Done(result) => LoginReply::Done(result_view(*result)),
        }
    }
}

impl View for LoginState<String> {
    type V = LoginState<Seq<char>>;

    open spec fn view(&self) -> LoginState<Seq<char>> {
        match self {
            LoginState::Finding { code_verifier } => LoginState::Finding {
                code_verifier: code_verifier@,
            },
            LoginState::Deleting { error } => LoginState::Deleting { error: error@ },
            LoginState::Exchanging { sso_auth } => LoginState::Exchanging { sso_auth: sso_auth@ },
            LoginState::AskingUser { sso_auth, exchange } => LoginState::AskingUser {
                sso_auth: sso_auth@,
                exchange: exchange@,
            },
            LoginState::Saving(login) => LoginState::Saving(login@),
        }
    }
}

impl Clone for OIDCAuthenticatedUser<String> {
    fn clone(&self) -> (copy: OIDCAuthenticatedUser<String>)
        ensures
            copy@ == self@,
    {
        OIDCAuthenticatedUser {
            refresh_token: copy_of(&self.refresh_token),
            access_token: self.access_token.clone(),
            expires_in: self.expires_in,
            identifier: self.identifier.clone(),
            email: self.email.clone(),
            email_verified: self.email_verified,
            user_name: copy_of(&self.user_name),
        }
    }
}

impl Clone for SsoAuth<String> {
    fn clone(&self) -> (copy: SsoAuth<String>)
        ensures
            copy@ == self@,
    {
        SsoAuth {
            state: self.state.clone(),
            code_response: copy_of(&self.code_response),
            code_response_error: match &self.code_response_error {
                Some(refusal) => Some(
                    ProviderError {
                        error: refusal.error.clone(),
                        error_description: copy_of(&refusal.error_description),
                    },
                ),
                None => None,
            },
            auth_response: match &self.auth_response {
                Some(user) => Some(user.clone()),
                None => None,
            },
            updated_at: self.updated_at,
        }
    }
}

/// A step of an exchange, as specifications see it.
pub type LoginStep = Step<
    LoginState<Seq<char>>,
    LoginAction<Seq<char>>,
    Login<Seq<char>>,
    Seq<char>,
>;

/// The first of two values that is there.
pub open spec fn first_of<T>(a: Option<T>, b: Option<T>) -> Option<T> {
    if a is Some {
        a
    } else {
        b
    }
}

/// The user that the provider vouches for: what the identity token claims goes before
/// what the provider says when it is asked, and the email address is in lower case.
pub open spec fn authenticated_user(exchange: Exchange<Seq<char>>, info: UserInfo<Seq<char>>) -> Result<
    OIDCAuthenticatedUser<Seq<char>>,
    SsoError<Seq<char>>,
> {
    let claims = exchange.id_claims;
    match first_of(claims.email, info.email) {
        Some(email) => Ok(
            OIDCAuthenticatedUser {
                refresh_token: exchange.token_response.refresh_token,
                access_token: exchange.token_response.access_token,
                expires_in: exchange.token_response.expires_in,
                identifier: identifier_of(claims.issuer, claims.subject),
                email: lowercase(email),
                email_verified: first_of(claims.email_verified, info.email_verified),
                user_name: first_of(claims.preferred_username, info.preferred_username),
            },
        ),
        None => Err(SsoError::MissingEmail),
    }
}

/// The first step of an exchange: the login is looked up by its code.
pub open spec fn login_start(code: Seq<char>, code_verifier: Seq<char>) -> LoginStep {
    Step::Call(LoginState::Finding { code_verifier }, LoginAction::FindSsoAuth { code })
}

/// The step in which a login that has failed is deleted.
pub open spec fn login_delete(
    sso_auth: SsoAuth<Seq<char>>,
    error: SsoError<Seq<char>>,
) -> LoginStep {
    Step::Call(
        LoginState::Deleting { error },
        LoginAction::DeleteSsoAuth { state: sso_auth.state },
    )
}

/// The step that follows once the login was looked up.
pub open spec fn login_found(
    found: Option<SsoAuth<Seq<char>>>,
    code_verifier: Seq<char>,
) -> LoginStep {
    match found {
        None => Step::Done(Err(SsoError::InvalidCode)),
        Some(sso_auth) => match sso_auth.auth_response {
            Some(user) => Step::Done(Ok(Login { sso_auth, user })),
            None => match (sso_auth.code_response, sso_auth.code_response_error) {
                (Some(code), None) => Step::Call(
                    LoginState::Exchanging { sso_auth },
                    LoginAction::ExchangeCode { code, code_verifier, sso_auth },
                ),
                (_, Some(refusal)) => login_delete(
                    sso_auth,
                    SsoError::AuthorizationFailed {
                        error: refusal.error,
                        description: refusal.error_description,
                    },
                ),
                (None, None) => login_delete(sso_auth, SsoError::MissingProviderReturn),
            },
        },
    }
}

/// The login, once the user is known.
pub open spec fn answered(
    sso_auth: SsoAuth<Seq<char>>,
    user: OIDCAuthenticatedUser<Seq<char>>,
    now: UtcTime,
) -> SsoAuth<Seq<char>> {
    SsoAuth { auth_response: Some(user), updated_at: now, ..sso_auth }
}

impl LoginState<Seq<char>> {
    /// The step that follows a reply.
    pub open spec fn after(self, reply: LoginReply<Seq<char>>, now: UtcTime) -> LoginStep {
        match (self, reply) {
            (LoginState::Finding { code_verifier }, LoginReply::SsoAuth(found)) => login_found(
                found,
                code_verifier,
            ),
            (LoginState::Deleting { error }, LoginReply::Done(Ok(_))) => Step::Done(Err(error)),
            (LoginState::Deleting { .. }, LoginReply::Done(Err(error))) => Step::Done(Err(error)),
            (LoginState::Exchanging { sso_auth }, LoginReply::Exchanged(Ok(exchange))) => {
                Step::Call(
                    LoginState::AskingUser { sso_auth, exchange },
                    LoginAction::FindUserInfo {
                        access_token: exchange.token_response.access_token,
                    },
                )
            },
            (LoginState::Exchanging { .. }, LoginReply::Exchanged(Err(error))) => {
                Step::Done(Err(error))
            },
            (LoginState::AskingUser { sso_auth, exchange }, LoginReply::UserInfo(Ok(info))) => {
                match authenticated_user(exchange, info) {
                    Ok(user) => {
                        let sso_auth = answered(sso_auth, user, now);
                        Step::Call(
                            LoginState::Saving(Login { sso_auth, user }),
                            LoginAction::SaveSsoAuth(sso_auth),
                        )
                    },
                    Err(error) => Step::Done(Err(error)),
                }
            },
            (LoginState::AskingUser { .. }, LoginReply::UserInfo(Err(error))) => {
                Step::Done(Err(error))
            },
            (LoginState::Saving(login), LoginReply::Done(Ok(_))) => Step::Done(Ok(login)),
            (LoginState::Saving(_), LoginReply::Done(Err(error))) => Step::Done(Err(error)),
            _ => Step::Done(Err(SsoError::UnexpectedReply)),
        }
    }
}

/// The first of two texts that is there.
fn first_text(a: Option<String>, b: Option<String>) -> (text: Option<String>)
    ensures
        text.deep_view() == first_of(a.deep_view(), b.deep_view()),
{
    match a {
        Some(text) => Some(text),
        None => b,
    }
}

/// The user that the provider vouches for.
pub fn authenticate(exchange: Exchange, info: UserInfo) -> (user: Result<
    OIDCAuthenticatedUser,
    SsoError,
>)
    ensures
        result_view(user) == authenticated_user(exchange@, info@),
        ({
            let email = first_of(exchange@.id_claims.email, info@.email);
            email is Some && is_ascii_text(email->0) ==> user is Ok && user->Ok_0@.email
                == ascii_lowered(email->0)
        }),
{
    let claims = exchange.id_claims;
    let email = match first_text(claims.email, info.email) {
        Some(email) => email.to_lowercase(),
        None => {
            return Err(SsoError::MissingEmail);
        },
    };
    let email_verified = match claims.email_verified {
        Some(verified) => Some(verified),
        None => info.email_verified,
    };
    Ok(
        OIDCAuthenticatedUser {
            refresh_token: exchange.token_response.refresh_token,
            access_token: exchange.token_response.access_token,
            expires_in: exchange.token_response.expires_in,
            identifier: OIDCIdentifier::new(&claims.issuer, &claims.subject).into_inner(),
            email,
            email_verified,
            user_name: first_text(claims.preferred_username, info.preferred_username),
        },
    )
}

/// Whether the provider owes a refresh token and gave none: the scope that asks for one
/// is among the scopes.
pub fn lacks_refresh_token(token_response: &TokenResponse, scopes: &Vec<String>) -> (lacks: bool)
    ensures
        lacks == (token_response@.refresh_token is None && scopes.deep_view().contains(
            "offline_access"@,
        )),
{
    if token_response.refresh_token.is_some() {
        return false;
    }
    let ghost views = scopes.deep_view();
    for i in 0..scopes.len()
        invariant
            token_response@.refresh_token is None,
            views == scopes.deep_view(),
            forall|j: int| 0 <= j < i ==> #[trigger] views[j] != "offline_access"@,
    {
        if same_text(&scopes[i], "offline_access") {
            assert(views[i as int] == "offline_access"@);
            return true;
        }
        assert(views[i as int] != "offline_access"@);
    }
    false
}

/// Exchanges the code for what the provider knows of the user: the first step.
pub fn exchange_code(code: &OIDCCode, client_verifier: OIDCCodeVerifier) -> (step: Step<
    LoginState,
    LoginAction,
    Login,
>)
    ensures
        step@ == login_start(code@, client_verifier@),
{
    Step::Call(
        LoginState::Finding { code_verifier: client_verifier.into_inner() },
        LoginAction::FindSsoAuth { code: code.clone().into_inner() },
    )
}

fn delete_failed(sso_auth: SsoAuth, error: SsoError) -> (step: Step<LoginState, LoginAction, Login>)
    ensures
        step@ == login_delete(sso_auth@, error@),
{
    Step::Call(
        LoginState::Deleting { error },
        LoginAction::DeleteSsoAuth { state: sso_auth.state },
    )
}

fn with_login(found: Option<SsoAuth>, code_verifier: String) -> (step: Step<
    LoginState,
    LoginAction,
    Login,
>)
    ensures
        step@ == login_found(found.deep_view(), code_verifier@),
{
    let sso_auth = match found {
        Some(sso_auth) => sso_auth,
        None => {
            return Step::Done(Err(SsoError::InvalidCode));
        },
    };
    if let Some(user) = &sso_auth.auth_response {
        let user = user.clone();
        return Step::Done(Ok(Login { sso_auth, user }));
    }
    if let Some(refusal) = &sso_auth.code_response_error {
        let error = SsoError::AuthorizationFailed {
            error: refusal.error.clone(),
            description: copy_of(&refusal.error_description),
        };
        return delete_failed(sso_auth, error);
    }
    match &sso_auth.code_response {
        Some(code) => {
            let action = LoginAction::ExchangeCode {
                code: code.clone(),
                code_verifier,
                sso_auth: sso_auth.clone(),
            };
            Step::Call(LoginState::Exchanging { sso_auth }, action)
        },
        None => delete_failed(sso_auth, SsoError::MissingProviderReturn),
    }
}

impl LoginState<String> {
    /// The step that follows a reply.
    pub fn advance(self, reply: LoginReply, now: UtcTime) -> (step: Step<
        LoginState,
        LoginAction,
        Login,
    >)
        ensures
            step@ == self@.after(reply@, now),
    {
        match (self, reply) {
            (LoginState::Finding { code_verifier }, LoginReply::SsoAuth(found)) => with_login(
                found,
                code_verifier,
            ),
            (LoginState::Deleting { error }, LoginReply::Done(deleted)) => match deleted {
                Ok(()) => Step::Done(Err(error)),
                Err(error) => Step::Done(Err(error)),
            },
            (LoginState::Exchanging { sso_auth }, LoginReply::Exchanged(exchanged)) => {
                match exchanged {
                    Ok(exchange) => {
                        let access_token = exchange.token_response.access_token.clone();
                        Step::Call(
                            LoginState::AskingUser { sso_auth, exchange },
                            LoginAction::FindUserInfo { access_token },
                        )
                    },
                    Err(error) => Step::Done(Err(error)),
                }
            },
            (LoginState::AskingUser { sso_auth, exchange }, LoginReply::UserInfo(asked)) => {
                match asked {
                    Ok(info) => match authenticate(exchange, info) {
                        Ok(user) => {
                            let mut sso_auth = sso_auth;
                            sso_auth.auth_response = Some(user.clone());
                            sso_auth.updated_at = now;
                            let saved = sso_auth.clone();
                            Step::Call(
                                LoginState::Saving(Login { sso_auth, user }),
                                LoginAction::SaveSsoAuth(saved),
                            )
                        },
                        Err(error) => Step::Done(Err(error)),
                    },
                    Err(error) => Step::Done(Err(error)),
                }
            },
            (LoginState::Saving(login), LoginReply::Done(saved)) => match saved {
                Ok(()) => Step::Done(Ok(login)),
                Err(error) => Step::Done(Err(error)),
            },
            _ => Step::Done(Err(SsoError::UnexpectedReply)),
        }
    }

    /// The step that follows a reply now.
    pub fn resume(self, reply: LoginReply) -> (step: Step<LoginState, LoginAction, Login>)
        ensures
            exists|now: UtcTime| #[trigger] now.wf() && step@ == self@.after(reply@, now),
    {
        self.advance(reply, utc_now())
    }
}

/// A code is exchanged but once: whatever login is written down after an exchange, when
/// it is looked up again the same user comes of it, and the provider is not asked.
pub proof fn law_code_is_exchanged_once(
    state: LoginState<Seq<char>>,
    reply: LoginReply<Seq<char>>,
    now: UtcTime,
    code_verifier: Seq<char>,
)
    ensures
        state.after(reply, now) matches Step::Call(
            LoginState::Saving(login),
            LoginAction::SaveSsoAuth(saved),
        ) ==> login_found(Some(saved), code_verifier) == LoginStep::Done(Ok(login)),
{
}

/// A login that the provider has refused, or not answered, is deleted before anything
/// else, and fails once it is.
pub proof fn law_failed_login_is_deleted(
    sso_auth: SsoAuth<Seq<char>>,
    code_verifier: Seq<char>,
    now: UtcTime,
)
    requires
        sso_auth.auth_response is None,
        sso_auth.code_response is None || sso_auth.code_response_error is Some,
    ensures
        ({
            let error = match sso_auth.code_response_error {
                Some(refusal) => SsoError::AuthorizationFailed {
                    error: refusal.error,
                    description: refusal.error_description,
                },
                None => SsoError::MissingProviderReturn,
            };
            &&& login_found(Some(sso_auth), code_verifier) == login_delete(sso_auth, error)
            &&& (LoginState::Deleting { error }).after(LoginReply::Done(Ok(())), now)
                == LoginStep::Done(Err(error))
        }),
{
}

/// Nobody logs in as the bot: however the provider writes the bot's email address, the
/// user that comes of it has a reserved one.
pub proof fn law_bot_does_not_log_in(
    config: SsoConfig<Seq<char>>,
    exchange: Exchange<Seq<char>>,
    info: UserInfo<Seq<char>>,
    email: Seq<char>,
)
    requires
        config.sso_org_bootstrap,
        first_of(exchange.id_claims.email, info.email) == Some(email),
        lowercase(email) == lowercase(config.sso_org_bot_email),
    ensures
        authenticated_user(exchange, info) matches Ok(user) && config.reserves(user.email),
{
}

/// What the user that comes of a login has: the email address in lower case, whether the
/// identity token claims it or the provider gives it when it is asked; whether it is
/// verified and what the user goes by from the identity token, or else from the provider's
/// answer; the identifier of the subject at the issuer; and the tokens of the exchange as
/// they are. Without an email address there is no user.
pub proof fn law_user_is_as_vouched_for(
    exchange: Exchange<Seq<char>>,
    info: UserInfo<Seq<char>>,
)
    ensures
        exchange.id_claims.email is None && info.email is None ==> authenticated_user(
            exchange,
            info,
        ) == Err::<
            OIDCAuthenticatedUser<Seq<char>>,
            SsoError<Seq<char>>,
        >(SsoError::MissingEmail),
        exchange.id_claims.email is Some || info.email is Some ==> authenticated_user(
            exchange,
            info,
        ) is Ok,
        authenticated_user(exchange, info) matches Ok(user) ==> {
            let claims = exchange.id_claims;
            &&& claims.email matches Some(email) ==> user.email == lowercase(email)
            &&& claims.email is None ==> user.email == lowercase(info.email->0)
            &&& claims.email_verified is Some ==> user.email_verified == claims.email_verified
            &&& claims.email_verified is None ==> user.email_verified == info.email_verified
            &&& claims.preferred_username is Some ==> user.user_name == claims.preferred_username
            &&& claims.preferred_username is None ==> user.user_name == info.preferred_username
            &&& user.identifier == claims.issuer + "/"@ + claims.subject
            &&& user.refresh_token == exchange.token_response.refresh_token
            &&& user.access_token == exchange.token_response.access_token
            &&& user.expires_in == exchange.token_response.expires_in
        },
{
}

/// Two logins by one email address, in whatever case and wherever the provider gives it,
/// are by one user: the address that comes of them is the same.
pub proof fn law_one_address_one_user(
    exchange: Exchange<Seq<char>>,
    info: UserInfo<Seq<char>>,
    other_exchange: Exchange<Seq<char>>,
    other_info: UserInfo<Seq<char>>,
)
    requires
        authenticated_user(exchange, info) is Ok,
        authenticated_user(other_exchange, other_info) is Ok,
        lowercase(
            if exchange.id_claims.email is Some {
                exchange.id_claims.email->0
            } else {
                info.email->0
            },
        ) == lowercase(
            if other_exchange.id_claims.email is Some {
                other_exchange.id_claims.email->0
            } else {
                other_info.email->0
            },
        ),
    ensures
        authenticated_user(exchange, info)->Ok_0.email == authenticated_user(
            other_exchange,
            other_info,
        )->Ok_0.email,
{
}

/// How a login begins, and what becomes of it once it was looked up by its code. There must
/// be one. One that was answered before gives the user that it gave. One that the provider
/// has refused, or not answered, is deleted. Any other has its code exchanged, with the
/// verifier that the client has sent.
pub proof fn law_login_is_looked_up(
    code: Seq<char>,
    code_verifier: Seq<char>,
    found: Option<SsoAuth<Seq<char>>>,
    now: UtcTime,
)
    ensures
        login_start(code, code_verifier) == LoginStep::Call(
            LoginState::Finding { code_verifier },
            LoginAction::FindSsoAuth { code },
        ),
        ({
            let step = (LoginState::Finding { code_verifier }).after(
                LoginReply::SsoAuth(found),
                now,
            );
            match found {
                None => step == LoginStep::Done(Err(SsoError::InvalidCode)),
                Some(sso_auth) => {
                    let delete = LoginAction::DeleteSsoAuth { state: sso_auth.state };
                    if sso_auth.auth_response is Some {
                        step == LoginStep::Done(
                            Ok(Login { sso_auth, user: sso_auth.auth_response->0 }),
                        )
                    } else if sso_auth.code_response_error is Some {
                        let refusal = sso_auth.code_response_error->0;
                        step == LoginStep::Call(
                            LoginState::Deleting {
                                error: SsoError::AuthorizationFailed {
                                    error: refusal.error,
                                    description: refusal.error_description,
                                },
                            },
                            delete,
                        )
                    } else if sso_auth.code_response is None {
                        step == LoginStep::Call(
                            LoginState::Deleting { error: SsoError::MissingProviderReturn },
                            delete,
                        )
                    } else {
                        step == LoginStep::Call(
                            LoginState::Exchanging { sso_auth },
                            LoginAction::ExchangeCode {
                                code: sso_auth.code_response->0,
                                code_verifier,
                                sso_auth,
                            },
                        )
                    }
                },
            }
        }),
{
}

/// How a login that the provider answers comes to its end: the user with the access token
/// of the exchange is asked about, the user that comes of both answers is written into the
/// login, with the instant and nothing else changed, and once that is saved the login is
/// over.
pub proof fn law_login_ends_with_the_user(
    sso_auth: SsoAuth<Seq<char>>,
    exchange: Exchange<Seq<char>>,
    info: UserInfo<Seq<char>>,
    login: Login<Seq<char>>,
    now: UtcTime,
)
    ensures
        (LoginState::Exchanging { sso_auth }).after(LoginReply::Exchanged(Ok(exchange)), now)
            == LoginStep::Call(
            LoginState::AskingUser { sso_auth, exchange },
            LoginAction::FindUserInfo { access_token: exchange.token_response.access_token },
        ),
        ({
            let step = (LoginState::AskingUser { sso_auth, exchange }).after(
                LoginReply::UserInfo(Ok(info)),
                now,
            );
            match authenticated_user(exchange, info) {
                Ok(user) => {
                    let saved = SsoAuth {
                        state: sso_auth.state,
                        code_response: sso_auth.code_response,
                        code_response_error: sso_auth.code_response_error,
                        auth_response: Some(user),
                        updated_at: now,
                    };
                    step == LoginStep::Call(
                        LoginState::Saving(Login { sso_auth: saved, user }),
                        LoginAction::SaveSsoAuth(saved),
                    )
                },
                Err(error) => step == LoginStep::Done(Err(error)),
            }
        }),
        LoginState::Saving(login).after(LoginReply::Done(Ok(())), now) == LoginStep::Done(
            Ok(login),
        ),
{
}

/// Whatever the server or the provider cannot do ends a login with that failure; a login
/// that has failed before ends with its own failure once it is deleted; and a reply to
/// something else ends it too.
pub proof fn law_login_fails_as_told(
    state: LoginState<Seq<char>>,
    reply: LoginReply<Seq<char>>,
    now: UtcTime,
)
    ensures
        ({
            let step = state.after(reply, now);
            match (state, reply) {
                (LoginState::Finding { .. }, LoginReply::SsoAuth(_)) => true,
                (LoginState::Deleting { error }, LoginReply::Done(Ok(_))) => step
                    == LoginStep::Done(Err(error)),
                (LoginState::Deleting { .. }, LoginReply::Done(Err(error))) => step
                    == LoginStep::Done(Err(error)),
                (LoginState::Exchanging { .. }, LoginReply::Exchanged(Ok(_))) => true,
                (LoginState::Exchanging { .. }, LoginReply::Exchanged(Err(error))) => step
                    == LoginStep::Done(Err(error)),
                (LoginState::AskingUser { .. }, LoginReply::UserInfo(Ok(_))) => true,
                (LoginState::AskingUser { .. }, LoginReply::UserInfo(Err(error))) => step
                    == LoginStep::Done(Err(error)),
                (LoginState::Saving(_), LoginReply::Done(Ok(_))) => true,
                (LoginState::Saving(_), LoginReply::Done(Err(error))) => step == LoginStep::Done(
                    Err(error),
                ),
                _ => step == LoginStep::Done(Err(SsoError::UnexpectedReply)),
            }
        }),
{
}

} // verus!
