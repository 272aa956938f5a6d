//! What specifications see of the library's values: all that is in them, and as it is. So
//! what the other laws say of a view, they say of the value.
use vstd::prelude::*;

use crate::base64::decoder_view;
use crate::config::SsoConfig;
use crate::error::{result_view, SsoError};
use crate::login::{
    Exchange, IdClaims, Login, LoginAction, LoginReply, OIDCAuthenticatedUser, ProviderError,
    SsoAuth, TokenResponse, UserInfo,
};
use crate::protocol::{
    Action, ActionView, Context, EventType, FreshIds, Mail, PolicyUse, Reply, ReplyView, Step,
};
use crate::records::{Collection, Device, Membership, Organization, SsoUser, User};
use crate::redeem::RedeemRequest;
use crate::renew::{NewTokens, RenewAction, RenewReply, RenewRequest, RenewToken};
use crate::session::{
    AuthMethod, AuthTokens, BasicTokenClaimsValidation, LoginJwtClaims, ProviderToken,
    RefreshJwtClaims, SessionRequest, SsoTokenJwtClaims, TokenReading, TokenWrapper,
};

verus! {

/// The records: every field is seen as it is.
pub proof fn law_records_are_seen_as_they_are(
    user: User,
    device: Device,
    sso_user: SsoUser,
    organization: Organization,
    collection: Collection,
    membership: Membership,
)
    ensures
        user@.uuid == user.uuid@,
        user@.email == user.email@,
        user@.name == user.name@,
        user@.public_key == user.public_key.deep_view(),
        user@.private_key == user.private_key.deep_view(),
        user@.verified_at == user.verified_at,
        user.deep_view() == user@,
        device@.uuid == device.uuid@,
        device@.refresh_token == device.refresh_token@,
        device@.atype == device.atype,
        sso_user@.user_uuid == sso_user.user_uuid@,
        sso_user@.identifier == sso_user.identifier@,
        sso_user.deep_view() == sso_user@,
        organization@.uuid == organization.uuid@,
        organization@.name == organization.name@,
        organization@.billing_email == organization.billing_email@,
        organization.deep_view() == organization@,
        collection@.uuid == collection.uuid@,
        collection@.org_uuid == collection.org_uuid@,
        collection@.name == collection.name@,
        collection.deep_view() == collection@,
        membership@.uuid == membership.uuid@,
        membership@.user_uuid == membership.user_uuid@,
        membership@.org_uuid == membership.org_uuid@,
        membership@.invited_by_email == membership.invited_by_email.deep_view(),
        membership@.access_all == membership.access_all,
        membership@.akey == membership.akey@,
        membership@.status == membership.status,
        membership@.atype == membership.atype,
        membership.deep_view() == membership@,
{
}

/// The claims and tokens of a session: every field is seen as it is.
pub proof fn law_tokens_are_seen_as_they_are(
    sso_token_jwt_claims: SsoTokenJwtClaims,
    basic_token_claims_validation: BasicTokenClaimsValidation,
    token_reading: TokenReading,
    provider_token: ProviderToken,
    login_jwt_claims: LoginJwtClaims,
    refresh_jwt_claims: RefreshJwtClaims,
    session_request: SessionRequest,
)
    ensures
        sso_token_jwt_claims@.nbf == sso_token_jwt_claims.nbf,
        sso_token_jwt_claims@.exp == sso_token_jwt_claims.exp,
        sso_token_jwt_claims@.iss == sso_token_jwt_claims.iss@,
        sso_token_jwt_claims@.sub == sso_token_jwt_claims.sub@,
        basic_token_claims_validation@.exp == basic_token_claims_validation.exp,
        basic_token_claims_validation@.iss == basic_token_claims_validation.iss@,
        token_reading@.validation == match token_reading.validation {
            Ok(validation) => Ok(validation@),
            Err(reason) => Err(reason@),
        },
        token_reading@.claims == token_reading.claims,
        provider_token@.secret == provider_token.secret@,
        provider_token@.reading == provider_token.reading@,
        provider_token.deep_view() == provider_token@,
        login_jwt_claims@.user_uuid == login_jwt_claims.user_uuid@,
        login_jwt_claims@.device_uuid == login_jwt_claims.device_uuid@,
        login_jwt_claims@.nbf == login_jwt_claims.nbf,
        login_jwt_claims@.exp == login_jwt_claims.exp,
        login_jwt_claims@.method == login_jwt_claims.method,
        login_jwt_claims@.client_id == login_jwt_claims.client_id.deep_view(),
        login_jwt_claims@.now == login_jwt_claims.now,
        refresh_jwt_claims@.nbf == refresh_jwt_claims.nbf,
        refresh_jwt_claims@.exp == refresh_jwt_claims.exp,
        refresh_jwt_claims@.iss == refresh_jwt_claims.iss@,
        refresh_jwt_claims@.sub == refresh_jwt_claims.sub,
        refresh_jwt_claims@.device_token == refresh_jwt_claims.device_token@,
        refresh_jwt_claims@.token == refresh_jwt_claims.token.deep_view(),
        session_request@.client_id == session_request.client_id.deep_view(),
        session_request@.refresh_token == session_request.refresh_token.deep_view(),
        session_request@.access_token == session_request.access_token@,
        session_request@.expires_in == session_request.expires_in,
{
}

/// What a login is made of, and what is asked and replied in it: everything is seen as it is.
pub proof fn law_logins_are_seen_as_they_are(
    provider_error: ProviderError,
    oidc_authenticated_user: OIDCAuthenticatedUser,
    sso_auth: SsoAuth,
    token_response: TokenResponse,
    id_claims: IdClaims,
    user_info: UserInfo,
    exchange: Exchange,
    login: Login,
)
    ensures
        provider_error@.error == provider_error.error@,
        provider_error@.error_description == provider_error.error_description.deep_view(),
        provider_error.deep_view() == provider_error@,
        oidc_authenticated_user@.refresh_token == oidc_authenticated_user.refresh_token.deep_view(),
        oidc_authenticated_user@.access_token == oidc_authenticated_user.access_token@,
        oidc_authenticated_user@.expires_in == oidc_authenticated_user.expires_in,
        oidc_authenticated_user@.identifier == oidc_authenticated_user.identifier@,
        oidc_authenticated_user@.email == oidc_authenticated_user.email@,
        oidc_authenticated_user@.email_verified == oidc_authenticated_user.email_verified,
        oidc_authenticated_user@.user_name == oidc_authenticated_user.user_name.deep_view(),
        oidc_authenticated_user.deep_view() == oidc_authenticated_user@,
        sso_auth@.state == sso_auth.state@,
        sso_auth@.code_response == sso_auth.code_response.deep_view(),
        sso_auth@.code_response_error == sso_auth.code_response_error.deep_view(),
        sso_auth@.auth_response == sso_auth.auth_response.deep_view(),
        sso_auth@.updated_at == sso_auth.updated_at,
        sso_auth.deep_view() == sso_auth@,
        token_response@.access_token == token_response.access_token@,
        token_response@.refresh_token == token_response.refresh_token.deep_view(),
        token_response@.expires_in == token_response.expires_in,
        id_claims@.issuer == id_claims.issuer@,
        id_claims@.subject == id_claims.subject@,
        id_claims@.email == id_claims.email.deep_view(),
        id_claims@.email_verified == id_claims.email_verified,
        id_claims@.preferred_username == id_claims.preferred_username.deep_view(),
        user_info@.email == user_info.email.deep_view(),
        user_info@.email_verified == user_info.email_verified,
        user_info@.preferred_username == user_info.preferred_username.deep_view(),
        exchange@.token_response == exchange.token_response@,
        exchange@.id_claims == exchange.id_claims@,
        login@.sso_auth == login.sso_auth@,
        login@.user == login.user@,
{
}

/// What a renewal is made of, and what is asked and replied in it: everything is seen as it is.
pub proof fn law_renewals_are_seen_as_they_are(
    renew_request: RenewRequest,
    new_tokens: NewTokens,
)
    ensures
        renew_request@.client_id == renew_request.client_id.deep_view(),
        renew_request@.exp == renew_request.exp,
        renew_request@.token == renew_request.token.deep_view(),
        new_tokens@.refresh_token == new_tokens.refresh_token.deep_view(),
        new_tokens@.access_token == new_tokens.access_token@,
        new_tokens@.expires_in == new_tokens.expires_in,
{
}

/// What the procedures are handed: every field is seen as it is.
pub proof fn law_requests_are_seen_as_they_are(
    sso_config: SsoConfig,
    fresh_ids: FreshIds,
    context: Context,
    redeem_request: RedeemRequest,
)
    ensures
        sso_config@.domain == sso_config.domain@,
        sso_config@.domain_origin == sso_config.domain_origin@,
        sso_config@.login_issuer == sso_config.login_issuer@,
        sso_config@.sso_authority == sso_config.sso_authority@,
        sso_config@.sso_auth_only_not_session == sso_config.sso_auth_only_not_session,
        sso_config@.mail_enabled == sso_config.mail_enabled,
        sso_config@.sso_default_org_id == sso_config.sso_default_org_id.deep_view(),
        sso_config@.sso_org_auto_provision == sso_config.sso_org_auto_provision,
        sso_config@.sso_org_invite_auto_accept == sso_config.sso_org_invite_auto_accept,
        sso_config@.sso_org_auto_confirm == sso_config.sso_org_auto_confirm,
        sso_config@.sso_org_auto_confirm_key == sso_config.sso_org_auto_confirm_key.deep_view(),
        sso_config@.sso_org_bootstrap == sso_config.sso_org_bootstrap,
        sso_config@.sso_org_bootstrap_name == sso_config.sso_org_bootstrap_name.deep_view(),
        sso_config@.sso_org_bootstrap_billing_email
            == sso_config.sso_org_bootstrap_billing_email.deep_view(),
        sso_config@.sso_org_bootstrap_collection_name
            == sso_config.sso_org_bootstrap_collection_name@,
        sso_config@.sso_org_bot_email == sso_config.sso_org_bot_email@,
        sso_config@.default_refresh_validity == sso_config.default_refresh_validity,
        sso_config@.bw_expiration == sso_config.bw_expiration,
        fresh_ids@.bot_user == fresh_ids.bot_user@,
        fresh_ids@.bot_membership == fresh_ids.bot_membership@,
        fresh_ids@.collection == fresh_ids.collection@,
        fresh_ids@.membership == fresh_ids.membership@,
        context@.config == context.config@,
        context@.user == context.user@,
        context@.device == context.device@,
        context@.ip == context.ip@,
        context@.fresh == context.fresh@,
        redeem_request@.state == redeem_request.state@,
        redeem_request@.sso_user == redeem_request.sso_user.deep_view(),
        redeem_request@.identifier == redeem_request.identifier@,
        redeem_request@.session == redeem_request.session@,
{
}

/// The failures: what they hold is seen as it is, and none is taken for another.
pub proof fn law_failures_are_seen_as_they_are(s: String, t: String, words: Option<String>)
    ensures
        SsoError::Backend(s)@ == SsoError::Backend(s@),
        SsoError::ExpiredSignature(s)@ == SsoError::ExpiredSignature(s@),
        SsoError::InvalidIssuer(s)@ == SsoError::InvalidIssuer(s@),
        SsoError::StateNotUtf8(s)@ == SsoError::StateNotUtf8(s@),
        SsoError::StateNotBase64(s)@ == SsoError::StateNotBase64(s@),
        SsoError::UnsupportedClient(s)@ == SsoError::UnsupportedClient(s@),
        SsoError::PublicKeyNotBase64(s)@ == SsoError::PublicKeyNotBase64(s@),
        SsoError::PublicKeyNotParsed(s)@ == SsoError::PublicKeyNotParsed(s@),
        SsoError::PublicKeyNotRsa(s)@ == SsoError::PublicKeyNotRsa(s@),
        SsoError::OrgKeyNotEncrypted(s)@ == SsoError::OrgKeyNotEncrypted(s@),
        SsoError::MissingPublicKey(s)@ == SsoError::MissingPublicKey(s@),
        SsoError::AutoConfirmKeyNotBase64(s)@ == SsoError::AutoConfirmKeyNotBase64(s@),
        SsoError::BotEmailInUse(s)@ == SsoError::BotEmailInUse(s@),
        SsoError::DefaultOrgNotFound(s)@ == SsoError::DefaultOrgNotFound(s@),
        (SsoError::UndecodableToken { token_name: s, reason: t })@ == (SsoError::UndecodableToken {
            token_name: s@,
            reason: t@,
        }),
        (SsoError::AuthorizationFailed { error: s, description: words })@ == (
        SsoError::AuthorizationFailed { error: s@, description: words.deep_view() }),
        SsoError::<String>::UnexpectedReply@ == SsoError::<Seq<char>>::UnexpectedReply,
        SsoError::<String>::MissingPort@ == SsoError::<Seq<char>>::MissingPort,
        SsoError::<String>::InvalidCode@ == SsoError::<Seq<char>>::InvalidCode,
        SsoError::<String>::MissingProviderReturn@ == SsoError::<Seq<char>>::MissingProviderReturn,
        SsoError::<String>::MissingEmail@ == SsoError::<Seq<char>>::MissingEmail,
        SsoError::<String>::MissingAutoConfirmKey@ == SsoError::<Seq<char>>::MissingAutoConfirmKey,
        SsoError::<String>::AutoConfirmKeyLength@ == SsoError::<Seq<char>>::AutoConfirmKeyLength,
        SsoError::<String>::MissingBootstrapName@ == SsoError::<Seq<char>>::MissingBootstrapName,
        SsoError::<String>::MissingBootstrapBillingEmail@
            == SsoError::<Seq<char>>::MissingBootstrapBillingEmail,
        SsoError::<String>::MissingDefaultOrgId@ == SsoError::<Seq<char>>::MissingDefaultOrgId,
        SsoError::<String>::MissingExpiry@ == SsoError::<Seq<char>>::MissingExpiry,
        SsoError::<String>::CloseToExpiration@ == SsoError::<Seq<char>>::CloseToExpiration,
        SsoError::<String>::NoToken@ == SsoError::<Seq<char>>::NoToken,
        SsoError::<String>::TimeOutOfRange@ == SsoError::<Seq<char>>::TimeOutOfRange,
        SsoError::<String>::TooLong@ == SsoError::<Seq<char>>::TooLong,
{
}

/// Results and steps: whether they are good, and what is in them, is seen as it is.
pub proof fn law_results_are_seen_as_they_are<T: View, M: View, A: View>(
    value: T,
    error: SsoError,
    state: M,
    action: A,
    bytes: Vec<u8>,
    words: String,
)
    ensures
        result_view(Ok::<T, SsoError>(value)) == Ok::<T::V, SsoError<Seq<char>>>(value@),
        result_view(Err::<T, SsoError>(error)) == Err::<T::V, SsoError<Seq<char>>>(error@),
        Step::<M, A, T>::Call(state, action)@ == Step::<M::V, A::V, T::V, Seq<char>>::Call(
            state@,
            action@,
        ),
        Step::<M, A, T>::Done(Ok(value))@ == Step::<M::V, A::V, T::V, Seq<char>>::Done(Ok(value@)),
        Step::<M, A, T>::Done(Err(error))@ == Step::<M::V, A::V, T::V, Seq<char>>::Done(
            Err(error@),
        ),
        decoder_view(Ok(bytes)) == Ok::<Seq<u8>, Seq<char>>(bytes@),
        decoder_view(Err(words)) == Err::<Seq<u8>, Seq<char>>(words@),
{
}

/// What is asked for is seen as it is.
pub proof fn law_actions_are_seen_as_they_are(
    s: String,
    t: String,
    u: String,
    v: String,
    words: Option<String>,
    org: Organization,
    user: User,
    link: SsoUser,
    member: Membership,
    collection: Collection,
    mail: Mail,
    event: EventType,
    policy_use: PolicyUse,
    device_type: i32,
    org_key: Vec<u8>,
)
    ensures
        (Action::<String, Vec<u8>>::FindOrganization { uuid: s })@ == (
        ActionView::FindOrganization { uuid: s@ }),
        Action::<String, Vec<u8>>::SaveOrganization(org)@ == ActionView::SaveOrganization(org@),
        (Action::<String, Vec<u8>>::FindUserByMail { email: s })@ == (
        ActionView::FindUserByMail { email: s@ }),
        Action::<String, Vec<u8>>::SaveUser(user)@ == ActionView::SaveUser(user@),
        (Action::<String, Vec<u8>>::FindSsoUserByMail { email: s })@ == (
        ActionView::FindSsoUserByMail { email: s@ }),
        Action::<String, Vec<u8>>::SaveSsoUser(link)@ == ActionView::SaveSsoUser(link@),
        (Action::<String, Vec<u8>>::FindMembership { user_uuid: s, org_uuid: t })@ == (
        ActionView::FindMembership { user_uuid: s@, org_uuid: t@ }),
        Action::<String, Vec<u8>>::SaveMembership(member)@ == ActionView::SaveMembership(member@),
        Action::<String, Vec<u8>>::AcceptInvite(member)@ == ActionView::AcceptInvite(member@),
        (Action::<String, Vec<u8>>::FindCollections { org_uuid: s })@ == (
        ActionView::FindCollections { org_uuid: s@ }),
        Action::<String, Vec<u8>>::SaveCollection(collection)@ == ActionView::SaveCollection(
            collection@,
        ),
        (Action::<String, Vec<u8>>::CheckPolicy { member, policy_use })@ == (
        ActionView::CheckPolicy { member: member@, policy_use }),
        (Action::<String, Vec<u8>>::LogEvent {
            event,
            member_uuid: s,
            org_uuid: t,
            user_uuid: u,
            device_type,
            ip: v,
        })@ == (ActionView::LogEvent {
            event,
            member_uuid: s@,
            org_uuid: t@,
            user_uuid: u@,
            device_type,
            ip: v@,
        }),
        (Action::<String, Vec<u8>>::LogError { message: s })@ == (
        ActionView::LogError { message: s@ }),
        Action::<String, Vec<u8>>::SendMail(mail)@ == ActionView::SendMail(mail@),
        (Action::<String, Vec<u8>>::SealOrgKey { org_key, public_key: s })@ == (
        ActionView::SealOrgKey { org_key: org_key@, public_key: s@ }),
        (Action::<String, Vec<u8>>::DeleteSsoAuth { state: s })@ == (
        ActionView::DeleteSsoAuth { state: s@ }),
        (Mail::InviteConfirmed { email: s, org_name: t })@ == (Mail::InviteConfirmed {
            email: s@,
            org_name: t@,
        }),
        (Mail::Enrolled { email: s, org_name: t })@ == (Mail::Enrolled {
            email: s@,
            org_name: t@,
        }),
        (Mail::Invite {
            email: s,
            org_uuid: t,
            member_uuid: u,
            org_name: v,
            invited_by_email: words,
        })@ == (Mail::Invite {
            email: s@,
            org_uuid: t@,
            member_uuid: u@,
            org_name: v@,
            invited_by_email: words.deep_view(),
        }),
{
}

/// What is replied is seen as it is.
pub proof fn law_replies_are_seen_as_they_are(
    org: Option<Organization>,
    user: Option<User>,
    link: Option<Option<SsoUser>>,
    member: Option<Membership>,
    collections: Vec<Collection>,
    sealed: Result<String, SsoError>,
    result: Result<(), SsoError>,
)
    ensures
        Reply::<String, Vec<Collection>>::Organization(org)@ == ReplyView::Organization(
            org.deep_view(),
        ),
        Reply::<String, Vec<Collection>>::User(user)@ == ReplyView::User(user.deep_view()),
        Reply::<String, Vec<Collection>>::SsoUser(link)@ == ReplyView::SsoUser(link.deep_view()),
        Reply::<String, Vec<Collection>>::Membership(member)@ == ReplyView::Membership(
            member.deep_view(),
        ),
        Reply::<String, Vec<Collection>>::Collections(collections)@ == ReplyView::Collections(
            collections.deep_view(),
        ),
        Reply::<String, Vec<Collection>>::Logged@ == ReplyView::Logged,
        Reply::<String, Vec<Collection>>::Sealed(sealed)@ == ReplyView::Sealed(
            result_view(sealed),
        ),
        Reply::<String, Vec<Collection>>::Done(result)@ == ReplyView::Done(result_view(result)),
{
}

/// What is asked and replied between the library and the provider, and what comes of it, is
/// seen as it is.
pub proof fn law_talk_with_the_provider_is_seen_as_it_is(
    s: String,
    t: String,
    sso_auth: SsoAuth,
    found: Option<SsoAuth>,
    exchanged: Result<Exchange, SsoError>,
    info: Result<UserInfo, SsoError>,
    result: Result<(), SsoError>,
    token: ProviderToken,
    tokens: Result<NewTokens, SsoError>,
    method: AuthMethod,
    client_id: Option<String>,
    refresh_claims: RefreshJwtClaims,
    access_claims: LoginJwtClaims,
)
    ensures
        (LoginAction::FindSsoAuth { code: s })@ == (LoginAction::FindSsoAuth { code: s@ }),
        (LoginAction::DeleteSsoAuth { state: s })@ == (LoginAction::DeleteSsoAuth { state: s@ }),
        LoginAction::SaveSsoAuth(sso_auth)@ == LoginAction::SaveSsoAuth(sso_auth@),
        (LoginAction::ExchangeCode { code: s, code_verifier: t, sso_auth })@ == (
        LoginAction::ExchangeCode { code: s@, code_verifier: t@, sso_auth: sso_auth@ }),
        (LoginAction::FindUserInfo { access_token: s })@ == (
        LoginAction::FindUserInfo { access_token: s@ }),
        LoginReply::SsoAuth(found)@ == LoginReply::SsoAuth(found.deep_view()),
        LoginReply::Exchanged(exchanged)@ == LoginReply::Exchanged(result_view(exchanged)),
        LoginReply::UserInfo(info)@ == LoginReply::UserInfo(result_view(info)),
        LoginReply::<String>::Done(result)@ == LoginReply::Done(result_view(result)),
        RenewToken::Access(s)@ == RenewToken::Access(s@),
        RenewToken::Refresh(token)@ == RenewToken::Refresh(token@),
        RenewToken::Refresh(token).deep_view() == RenewToken::Refresh(token@),
        RenewToken::Access(s).deep_view() == RenewToken::Access(s@),
        (RenewAction::ExchangeRefreshToken { refresh_token: s })@ == (
        RenewAction::ExchangeRefreshToken { refresh_token: s@ }),
        (RenewAction::CheckValidity { access_token: s })@ == (
        RenewAction::CheckValidity { access_token: s@ }),
        RenewReply::Exchanged(tokens)@ == RenewReply::Exchanged(result_view(tokens)),
        RenewReply::<String>::Checked(result)@ == RenewReply::Checked(result_view(result)),
        TokenWrapper::Access(s)@ == TokenWrapper::Access(s@),
        TokenWrapper::Refresh(s)@ == TokenWrapper::Refresh(s@),
        TokenWrapper::Access(s).deep_view() == TokenWrapper::Access(s@),
        TokenWrapper::Refresh(s).deep_view() == TokenWrapper::Refresh(s@),
        (AuthTokens::Own { user_uuid: s, device_uuid: t, method, client_id })@ == (
        AuthTokens::Own {
            user_uuid: s@,
            device_uuid: t@,
            method,
            client_id: client_id.deep_view(),
        }),
        (AuthTokens::Provider { refresh_claims, access_claims })@ == (AuthTokens::Provider {
            refresh_claims: refresh_claims@,
            access_claims: access_claims@,
        }),
{
}

} // verus!
