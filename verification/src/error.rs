//! What can go wrong in a login, and the words for it.
use vstd::prelude::*;

use crate::text::{joined, joined3};

verus! {

/// Why a login, or a step of it, fails. The texts in it are strings; in specifications
/// they are sequences of characters.
#[derive(Debug, PartialEq, Eq)]
pub enum SsoError<S = String> {
    /// An operation outside the library failed, with this message.
    Backend(S),
    /// The reply does not answer the action that was asked for.
    UnexpectedReply,
    /// The token of this name has expired.
    ExpiredSignature(S),
    /// The token of this name was issued by another authority.
    InvalidIssuer(S),
    /// The claims of the token could not be read, for this reason.
    UndecodableToken { token_name: S, reason: S },
    /// The state decodes to bytes that are no text.
    StateNotUtf8(S),
    /// The state is not base64.
    StateNotBase64(S),
    /// The redirect address of the command line client names no port.
    MissingPort,
    /// No redirect address is known for this client.
    UnsupportedClient(S),
    /// No login is known under the code.
    InvalidCode,
    /// The provider refused the login.
    AuthorizationFailed { error: S, description: Option<S> },
    /// The provider has answered nothing yet.
    MissingProviderReturn,
    /// The provider named no email address.
    MissingEmail,
    /// The user's public key is not base64, with the decoder's complaint.
    PublicKeyNotBase64(S),
    /// The user's public key is no public key, with the parser's complaint.
    PublicKeyNotParsed(S),
    /// The user's public key is not of RSA, with the complaint.
    PublicKeyNotRsa(S),
    /// The organization key could not be encrypted, with the complaint.
    OrgKeyNotEncrypted(S),
    /// Memberships are to be confirmed, and no organization key is configured.
    MissingAutoConfirmKey,
    /// The user with this email address has no public key.
    MissingPublicKey(S),
    /// The configured organization key is not base64, with the decoder's complaint.
    AutoConfirmKeyNotBase64(S),
    /// The configured organization key has the wrong length.
    AutoConfirmKeyLength,
    /// The bot's email address belongs to an account that is not the bot's.
    BotEmailInUse(S),
    /// The organization is to be created, and no name is configured.
    MissingBootstrapName,
    /// The organization is to be created, and no billing address is configured.
    MissingBootstrapBillingEmail,
    /// The configured organization does not exist.
    DefaultOrgNotFound(S),
    /// Users are to be provisioned, and no organization is configured.
    MissingDefaultOrgId,
    /// Nothing tells when the access token expires.
    MissingExpiry,
    /// The access token is about to expire and cannot be renewed.
    CloseToExpiration,
    /// The session holds no token of the provider.
    NoToken,
    /// A time lies beyond what a date and time, or the claims of a token, can hold.
    TimeOutOfRange,
    /// A value is too long to be put into base64 or read from it.
    TooLong,
}

impl View for SsoError<String> {
    type V = SsoError<Seq<char>>;

    open spec fn view(&self) -> SsoError<Seq<char>> {
        match self {
            SsoError::Backend(s) => SsoError::Backend(s@),
            SsoError::UnexpectedReply => SsoError::UnexpectedReply,
            SsoError::ExpiredSignature(s) => SsoError::ExpiredSignature(s@),
            SsoError::InvalidIssuer(s) => SsoError::InvalidIssuer(s@),
            SsoError::UndecodableToken { token_name, reason } => SsoError::UndecodableToken {
                token_name: token_name@,
                reason: reason@,
            },
            SsoError::StateNotUtf8(s) => SsoError::StateNotUtf8(s@),
            SsoError::StateNotBase64(s) => SsoError::StateNotBase64(s@),
            SsoError::MissingPort => SsoError::MissingPort,
            SsoError::UnsupportedClient(s) => SsoError::UnsupportedClient(s@),
            SsoError::InvalidCode => SsoError::InvalidCode,
            SsoError::AuthorizationFailed { error, description } => SsoError::AuthorizationFailed {
                error: error@,
                description: description.deep_view(),
            },
            SsoError::MissingProviderReturn => SsoError::MissingProviderReturn,
            SsoError::MissingEmail => SsoError::MissingEmail,
            SsoError::PublicKeyNotBase64(s) => SsoError::PublicKeyNotBase64(s@),
            SsoError::PublicKeyNotParsed(s) => SsoError::PublicKeyNotParsed(s@),
            SsoError::PublicKeyNotRsa(s) => SsoError::PublicKeyNotRsa(s@),
            SsoError::OrgKeyNotEncrypted(s) => SsoError::OrgKeyNotEncrypted(s@),
            SsoError::MissingAutoConfirmKey => SsoError::MissingAutoConfirmKey,
            SsoError::MissingPublicKey(s) => SsoError::MissingPublicKey(s@),
            SsoError::AutoConfirmKeyNotBase64(s) => SsoError::AutoConfirmKeyNotBase64(s@),
            SsoError::AutoConfirmKeyLength => SsoError::AutoConfirmKeyLength,
            SsoError::BotEmailInUse(s) => SsoError::BotEmailInUse(s@),
            SsoError::MissingBootstrapName => SsoError::MissingBootstrapName,
            SsoError::MissingBootstrapBillingEmail => SsoError::MissingBootstrapBillingEmail,
            SsoError::DefaultOrgNotFound(s) => SsoError::DefaultOrgNotFound(s@),
            SsoError::MissingDefaultOrgId => SsoError::MissingDefaultOrgId,
            SsoError::MissingExpiry => SsoError::MissingExpiry,
            SsoError::CloseToExpiration => SsoError::CloseToExpiration,
            SsoError::NoToken => SsoError::NoToken,
            SsoError::TimeOutOfRange => SsoError::TimeOutOfRange,
            SsoError::TooLong => SsoError::TooLong,
        }
    }
}

impl SsoError<Seq<char>> {
    /// The message that the failure is reported with.
    pub open spec fn text(self) -> Seq<char> {
        match self {
            SsoError::Backend(s) => s,
            SsoError::UnexpectedReply => "The reply does not answer the action"@,
            SsoError::ExpiredSignature(s) => "Expired Signature for base token claim from "@ + s,
            SsoError::InvalidIssuer(s) => "Invalid Issuer for base token claim from "@ + s,
            SsoError::UndecodableToken { token_name, reason } => {
                "Failed to decode basic token claims from "@ + token_name + ": "@ + reason
            },
            SsoError::StateNotUtf8(s) => {
                "Invalid utf8 chars in "@ + s + " after base64 decoding"@
            },
            SsoError::StateNotBase64(s) => "Failed to decode "@ + s + " using base64"@,
            SsoError::MissingPort => "Failed to extract port number"@,
            SsoError::UnsupportedClient(s) => "Unsupported client "@ + s,
            SsoError::InvalidCode => "Invalid code cannot retrieve sso auth"@,
            SsoError::AuthorizationFailed { error, description } => {
                "SSO authorization failed: "@ + error + ", "@ + text_or_nothing(description)
            },
            SsoError::MissingProviderReturn => "Missing authorization provider return"@,
            SsoError::MissingEmail => "Neither id token nor userinfo contained an email"@,
            SsoError::PublicKeyNotBase64(s) => {
                "Failed to decode SSO auto-confirm user public key: "@ + s
            },
            SsoError::PublicKeyNotParsed(s) => {
                "Failed to parse SSO auto-confirm user public key: "@ + s
            },
            SsoError::PublicKeyNotRsa(s) => "SSO auto-confirm user public key is not RSA: "@ + s,
            SsoError::OrgKeyNotEncrypted(s) => {
                "Failed to encrypt SSO auto-confirm org key: "@ + s
            },
            SsoError::MissingAutoConfirmKey => {
                "SSO_ORG_AUTO_CONFIRM_KEY must be configured when SSO_ORG_AUTO_CONFIRM is enabled"@
            },
            SsoError::MissingPublicKey(s) => "SSO auto-confirm requires a public key for "@ + s,
            SsoError::AutoConfirmKeyNotBase64(s) => {
                "Failed to decode SSO_ORG_AUTO_CONFIRM_KEY: "@ + s
            },
            SsoError::AutoConfirmKeyLength => {
                "SSO_ORG_AUTO_CONFIRM_KEY must decode to 32 or 64 bytes"@
            },
            SsoError::BotEmailInUse(s) => {
                "SSO_ORG_BOT_EMAIL "@ + s + " is already used by an interactive or SSO-linked account"@
            },
            SsoError::MissingBootstrapName => {
                "SSO_ORG_BOOTSTRAP_NAME must be configured when SSO_ORG_BOOTSTRAP is enabled"@
            },
            SsoError::MissingBootstrapBillingEmail => {
                "SSO_ORG_BOOTSTRAP_BILLING_EMAIL must be configured when SSO_ORG_BOOTSTRAP is enabled"@
            },
            SsoError::DefaultOrgNotFound(s) => {
                "Configured SSO default organization "@ + s + " does not exist"@
            },
            SsoError::MissingDefaultOrgId => {
                "SSO_DEFAULT_ORG_ID must be configured when SSO organization provisioning is enabled"@
            },
            SsoError::MissingExpiry => "Non jwt access_token and empty expires_in"@,
            SsoError::CloseToExpiration => {
                "Access token is close to expiration but we have no refresh token"@
            },
            SsoError::NoToken => "No token present while in SSO"@,
            SsoError::TimeOutOfRange => "Time out of range"@,
            SsoError::TooLong => "Value too long for base64"@,
        }
    }

    /// The failure is an everyday one: it is reported to the caller and not logged.
    pub open spec fn quiet(self) -> bool {
        ||| self is ExpiredSignature
        ||| self is InvalidIssuer
        ||| self is UndecodableToken
        ||| self is CloseToExpiration
    }
}

/// The view of a result: that of the value, or that of the failure.
pub open spec fn result_view<T: View>(result: Result<T, SsoError>) -> Result<
    T::V,
    SsoError<Seq<char>>,
> {
    match result {
        Ok(value) => Ok(value@),
        Err(error) => Err(error@),
    }
}

/// A text that may be missing, as an empty text where it is.
pub open spec fn text_or_nothing(text: Option<Seq<char>>) -> Seq<char> {
    match text {
        Some(s) => s,
        None => Seq::empty(),
    }
}

impl SsoError<String> {
    /// The message that the failure is reported with.
    pub fn message(&self) -> (message: String)
        ensures
            message@ == self@.text(),
    {
        match self {
            SsoError::Backend(s) => s.clone(),
            SsoError::UnexpectedReply => "The reply does not answer the action".to_owned(),
            SsoError::ExpiredSignature(s) => {
                joined("Expired Signature for base token claim from ", s)
            },
            SsoError::InvalidIssuer(s) => joined("Invalid Issuer for base token claim from ", s),
            SsoError::UndecodableToken { token_name, reason } => {
                let start = joined3("Failed to decode basic token claims from ", token_name, ": ");
                joined(&start, reason)
            },
            SsoError::StateNotUtf8(s) => {
                joined3("Invalid utf8 chars in ", s, " after base64 decoding")
            },
            SsoError::StateNotBase64(s) => joined3("Failed to decode ", s, " using base64"),
            SsoError::MissingPort => "Failed to extract port number".to_owned(),
            SsoError::UnsupportedClient(s) => joined("Unsupported client ", s),
            SsoError::InvalidCode => "Invalid code cannot retrieve sso auth".to_owned(),
            SsoError::AuthorizationFailed { error, description } => {
                let start = joined3("SSO authorization failed: ", error, ", ");
                match description {
                    Some(words) => joined(&start, words),
                    None => joined(&start, &String::new()),
                }
            },
            SsoError::MissingProviderReturn => "Missing authorization provider return".to_owned(),
            SsoError::MissingEmail => {
                "Neither id token nor userinfo contained an email".to_owned()
            },
            SsoError::PublicKeyNotBase64(s) => {
                joined("Failed to decode SSO auto-confirm user public key: ", s)
            },
            SsoError::PublicKeyNotParsed(s) => {
                joined("Failed to parse SSO auto-confirm user public key: ", s)
            },
            SsoError::PublicKeyNotRsa(s) => {
                joined("SSO auto-confirm user public key is not RSA: ", s)
            },
            SsoError::OrgKeyNotEncrypted(s) => {
                joined("Failed to encrypt SSO auto-confirm org key: ", s)
            },
            SsoError::MissingAutoConfirmKey => {
                "SSO_ORG_AUTO_CONFIRM_KEY must be configured when SSO_ORG_AUTO_CONFIRM is enabled".to_owned()
            },
            SsoError::MissingPublicKey(s) => {
                joined("SSO auto-confirm requires a public key for ", s)
            },
            SsoError::AutoConfirmKeyNotBase64(s) => {
                joined("Failed to decode SSO_ORG_AUTO_CONFIRM_KEY: ", s)
            },
            SsoError::AutoConfirmKeyLength => {
                "SSO_ORG_AUTO_CONFIRM_KEY must decode to 32 or 64 bytes".to_owned()
            },
            SsoError::BotEmailInUse(s) => {
                joined3("SSO_ORG_BOT_EMAIL ", s, " is already used by an interactive or SSO-linked account")
            },
            SsoError::MissingBootstrapName => {
                "SSO_ORG_BOOTSTRAP_NAME must be configured when SSO_ORG_BOOTSTRAP is enabled".to_owned()
            },
            SsoError::MissingBootstrapBillingEmail => {
                "SSO_ORG_BOOTSTRAP_BILLING_EMAIL must be configured when SSO_ORG_BOOTSTRAP is enabled".to_owned()
            },
            SsoError::DefaultOrgNotFound(s) => {
                joined3("Configured SSO default organization ", s, " does not exist")
            },
            SsoError::MissingDefaultOrgId => {
                "SSO_DEFAULT_ORG_ID must be configured when SSO organization provisioning is enabled".to_owned()
            },
            SsoError::MissingExpiry => "Non jwt access_token and empty expires_in".to_owned(),
            SsoError::CloseToExpiration => {
                "Access token is close to expiration but we have no refresh token".to_owned()
            },
            SsoError::NoToken => "No token present while in SSO".to_owned(),
            SsoError::TimeOutOfRange => "Time out of range".to_owned(),
            SsoError::TooLong => "Value too long for base64".to_owned(),
        }
    }

    /// Whether the failure is an everyday one, which is reported and not logged.
    pub fn is_quiet(&self) -> (quiet: bool)
        ensures
            quiet == self@.quiet(),
    {
        match self {
            SsoError::ExpiredSignature(_) => true,
            SsoError::InvalidIssuer(_) => true,
            SsoError::UndecodableToken { .. } => true,
            SsoError::CloseToExpiration => true,
            _ => false,
        }
    }
}

/// A message names what the failure is about: it is made of fixed words, and of what the
/// failure holds, as it is.
pub proof fn law_messages_name_the_cause(s: Seq<char>, t: Seq<char>)
    ensures
        SsoError::Backend(s).text() == s,
        SsoError::ExpiredSignature(s).text() == "Expired Signature for base token claim from "@ + s,
        SsoError::InvalidIssuer(s).text() == "Invalid Issuer for base token claim from "@ + s,
        (SsoError::UndecodableToken { token_name: s, reason: t }).text()
            == "Failed to decode basic token claims from "@ + s + ": "@ + t,
        SsoError::StateNotUtf8(s).text() == "Invalid utf8 chars in "@ + s
            + " after base64 decoding"@,
        SsoError::StateNotBase64(s).text() == "Failed to decode "@ + s + " using base64"@,
        SsoError::UnsupportedClient(s).text() == "Unsupported client "@ + s,
        (SsoError::AuthorizationFailed { error: s, description: Some(t) }).text()
            == "SSO authorization failed: "@ + s + ", "@ + t,
        (SsoError::AuthorizationFailed { error: s, description: None }).text()
            == "SSO authorization failed: "@ + s + ", "@,
        SsoError::PublicKeyNotBase64(s).text()
            == "Failed to decode SSO auto-confirm user public key: "@ + s,
        SsoError::PublicKeyNotParsed(s).text()
            == "Failed to parse SSO auto-confirm user public key: "@ + s,
        SsoError::PublicKeyNotRsa(s).text() == "SSO auto-confirm user public key is not RSA: "@ + s,
        SsoError::OrgKeyNotEncrypted(s).text() == "Failed to encrypt SSO auto-confirm org key: "@
            + s,
        SsoError::MissingPublicKey(s).text() == "SSO auto-confirm requires a public key for "@ + s,
        SsoError::AutoConfirmKeyNotBase64(s).text() == "Failed to decode SSO_ORG_AUTO_CONFIRM_KEY: "@
            + s,
        SsoError::BotEmailInUse(s).text() == "SSO_ORG_BOT_EMAIL "@ + s
            + " is already used by an interactive or SSO-linked account"@,
        SsoError::DefaultOrgNotFound(s).text() == "Configured SSO default organization "@ + s
            + " does not exist"@,
{
    assert("SSO authorization failed: "@ + s + ", "@ + Seq::<char>::empty()
        =~= "SSO authorization failed: "@ + s + ", "@);
}

/// The everyday failures are those of a token that does not pass the check, and of a session
/// that is about to end; every other one is logged.
pub proof fn law_everyday_failures(error: SsoError<Seq<char>>)
    ensures
        error.quiet() <==> (error matches SsoError::ExpiredSignature(_)) || (error matches
            SsoError::InvalidIssuer(_)) || (error matches SsoError::UndecodableToken { .. })
            || (error matches SsoError::CloseToExpiration),
{
}

} // verus!
