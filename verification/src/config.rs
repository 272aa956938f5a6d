//! The settings that single sign-on goes by.
use vstd::prelude::*;

use crate::clock::Lifetime;
use crate::text::{
    ascii_lower, ascii_lowered, is_ascii_text, lowercase, same_but_for_ascii_case, same_text,
};

verus! {

/// The identifier that a client shows where no organization asks for a login by the
/// provider.
pub const FAKE_SSO_IDENTIFIER: &'static str = "00000000-01DC-01DC-01DC-000000000000";

/// How long, in seconds, a login may be under way.
pub const SSO_AUTH_EXPIRATION: u64 = 600;

/// The settings. The texts in them are strings; in specifications they are sequences of
/// characters.
#[derive(Debug, PartialEq, Eq)]
pub struct SsoConfig<S = String> {
    /// The address of the web vault.
    pub domain: S,
    /// The scheme, host and port of that address.
    pub domain_origin: S,
    /// The issuer of the server's own login tokens.
    pub login_issuer: S,
    /// The provider, as it names itself in its tokens.
    pub sso_authority: S,
    /// The provider only says who the user is; the session is the server's own.
    pub sso_auth_only_not_session: bool,
    /// Mail can be sent.
    pub mail_enabled: bool,
    /// The organization that every user of the provider belongs to.
    pub sso_default_org_id: Option<S>,
    /// Users without a membership get one.
    pub sso_org_auto_provision: bool,
    /// Invitations are accepted for the user.
    pub sso_org_invite_auto_accept: bool,
    /// Accepted memberships are confirmed.
    pub sso_org_auto_confirm: bool,
    /// The key of the organization, in base64.
    pub sso_org_auto_confirm_key: Option<S>,
    /// The organization is created where it is missing, and owned by a bot.
    pub sso_org_bootstrap: bool,
    /// The name of an organization that is created.
    pub sso_org_bootstrap_name: Option<S>,
    /// The billing address of an organization that is created.
    pub sso_org_bootstrap_billing_email: Option<S>,
    /// The first collection of an organization that is created.
    pub sso_org_bootstrap_collection_name: S,
    /// The email address that the bot is known by.
    pub sso_org_bot_email: S,
    /// How long a refresh token is good for that does not say so itself.
    pub default_refresh_validity: Lifetime,
    /// How long before its end a session counts as about to expire.
    pub bw_expiration: Lifetime,
}

impl View for SsoConfig<String> {
    type V = SsoConfig<Seq<char>>;

    open spec fn view(&self) -> SsoConfig<Seq<char>> {
        SsoConfig {
            domain: self.domain@,
            domain_origin: self.domain_origin@,
            login_issuer: self.login_issuer@,
            sso_authority: self.sso_authority@,
            sso_auth_only_not_session: self.sso_auth_only_not_session,
            mail_enabled: self.mail_enabled,
            sso_default_org_id: self.sso_default_org_id.deep_view(),
            sso_org_auto_provision: self.sso_org_auto_provision,
            sso_org_invite_auto_accept: self.sso_org_invite_auto_accept,
            sso_org_auto_confirm: self.sso_org_auto_confirm,
            sso_org_auto_confirm_key: self.sso_org_auto_confirm_key.deep_view(),
            sso_org_bootstrap: self.sso_org_bootstrap,
            sso_org_bootstrap_name: self.sso_org_bootstrap_name.deep_view(),
            sso_org_bootstrap_billing_email: self.sso_org_bootstrap_billing_email.deep_view(),
            sso_org_bootstrap_collection_name: self.sso_org_bootstrap_collection_name@,
            sso_org_bot_email: self.sso_org_bot_email@,
            default_refresh_validity: self.default_refresh_validity,
            bw_expiration: self.bw_expiration,
        }
    }
}

impl SsoConfig<Seq<char>> {
    /// The email address is the bot's, whatever the case of its letters, and so no user's:
    /// the bot's account is known by it, or it has the same lower case.
    pub open spec fn reserves(self, email: Seq<char>) -> bool {
        let known_by = lowercase(self.sso_org_bot_email);
        self.sso_org_bootstrap && (email == known_by || lowercase(email) == known_by)
    }

    /// A login has something to do about the organization.
    pub open spec fn wants_org(self) -> bool {
        ||| self.sso_org_auto_provision
        ||| self.sso_org_invite_auto_accept
        ||| self.sso_org_auto_confirm
        ||| self.sso_org_bootstrap
    }
}

impl SsoConfig<String> {
    /// Whether a login has something to do about the organization.
    pub(crate) fn has_to_do_with_org(&self) -> (wanted: bool)
        ensures
            wanted == self@.wants_org(),
    {
        self.sso_org_auto_provision || self.sso_org_invite_auto_accept || self.sso_org_auto_confirm
            || self.sso_org_bootstrap
    }
}

/// Two texts of ASCII have the same lower case if they differ at most in the case of
/// their letters.
proof fn lemma_same_ascii_lower(a: Seq<char>, b: Seq<char>)
    ensures
        (ascii_lowered(a) == ascii_lowered(b)) == same_but_for_ascii_case(a, b),
        ascii_lowered(ascii_lowered(a)) == ascii_lowered(a),
{
    if ascii_lowered(a) == ascii_lowered(b) {
        assert(ascii_lowered(a).len() == ascii_lowered(b).len());
        assert forall|i: int| 0 <= i < a.len() implies ascii_lower(#[trigger] a[i]) == ascii_lower(
            b[i],
        ) by {
            assert(ascii_lowered(a)[i] == ascii_lowered(b)[i]);
        }
    }
    if same_but_for_ascii_case(a, b) {
        assert(ascii_lowered(a) =~= ascii_lowered(b));
    }
    assert(ascii_lowered(ascii_lowered(a)) =~= ascii_lowered(a));
}

/// Whether the email address is the bot's, and so closed to users of the provider. Where
/// it is of ASCII, as the bot's is, that is so if the two differ at most in the case of
/// their letters.
pub fn is_reserved_sso_org_bot_email(email: &str, config: &SsoConfig) -> (reserved: bool)
    ensures
        reserved == config@.reserves(email@),
        is_ascii_text(email@) && is_ascii_text(config@.sso_org_bot_email) ==> reserved == (
        config@.sso_org_bootstrap && same_but_for_ascii_case(email@, config@.sso_org_bot_email)),
{
    let known_by = config.sso_org_bot_email.to_lowercase();
    let lower = email.to_lowercase();
    proof {
        lemma_same_ascii_lower(email@, config@.sso_org_bot_email);
        lemma_same_ascii_lower(config@.sso_org_bot_email, email@);
    }
    config.sso_org_bootstrap && (same_text(email, &known_by) || same_text(&lower, &known_by))
}

/// While a bot is wanted, its email address is reserved in any case of its letters: as its
/// account is known by it, and as anybody else may write it.
pub proof fn law_reserved_in_any_case(config: SsoConfig<Seq<char>>, email: Seq<char>)
    requires
        config.sso_org_bootstrap,
        lowercase(email) == lowercase(config.sso_org_bot_email),
    ensures
        config.reserves(email),
        config.reserves(lowercase(email)),
{
}

/// Only the bot's email address is reserved, and only while a bot is wanted: a reserved one
/// is the one that its account is known by, or has the same lower case.
pub proof fn law_only_the_bot_is_reserved(config: SsoConfig<Seq<char>>, email: Seq<char>)
    ensures
        !config.sso_org_bootstrap ==> !config.reserves(email),
        email != lowercase(config.sso_org_bot_email) && lowercase(email) != lowercase(
            config.sso_org_bot_email,
        ) ==> !config.reserves(email),
{
}

/// A login has to do with the organization as soon as one of the four settings is on.
pub proof fn law_any_setting_wants_the_org(config: SsoConfig<Seq<char>>)
    ensures
        config.sso_org_auto_provision ==> config.wants_org(),
        config.sso_org_invite_auto_accept ==> config.wants_org(),
        config.sso_org_auto_confirm ==> config.wants_org(),
        config.sso_org_bootstrap ==> config.wants_org(),
        config.wants_org() ==> config.sso_org_auto_provision || config.sso_org_invite_auto_accept
            || config.sso_org_auto_confirm || config.sso_org_bootstrap,
{
}

} // verus!
