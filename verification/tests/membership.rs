use data_encoding::BASE64;
use openssl::pkey::Private;
use openssl::rsa::{Padding, Rsa};
use sso::bot::ensure_sso_org_bot_membership;
use sso::confirm::{auto_confirm_default_org_membership, seal_for_confirmation, ConfirmState};
use sso::login::{
    authenticate, Exchange, IdClaims, LoginAction, LoginReply, SsoAuth, TokenResponse, UserInfo,
};
use sso::protocol::{EventType, Mail, PolicyUse};
use sso::reconcile::ReconcileState;
use sso::records::{
    Collection, Device, Membership, MembershipStatus, MembershipType, Organization, SsoUser, User,
};
use sso::redeem::RedeemRequest;
use sso::session::{AuthMethod, AuthTokens, ProviderToken, SessionRequest, TokenReading};
use sso::{
    exchange_code, is_reserved_sso_org_bot_email, reconcile_default_org_membership, redeem, Action,
    Context, FreshIds, Lifetime, OIDCCode, OIDCCodeVerifier, Reply, SsoConfig, SsoError, Step,
    UtcTime,
};

const BOT: &str = "SSO-Org-Bot@Vaultwarden.Local";
const BOT_LOWER: &str = "sso-org-bot@vaultwarden.local";

fn text(s: &str) -> String {
    s.to_owned()
}

fn config() -> SsoConfig {
    SsoConfig {
        domain: text("https://vault.example.com"),
        domain_origin: text("https://vault.example.com"),
        login_issuer: text("https://vault.example.com|login"),
        sso_authority: text("https://idp.example.com"),
        sso_auth_only_not_session: false,
        mail_enabled: true,
        sso_default_org_id: Some(text("org")),
        sso_org_auto_provision: true,
        sso_org_invite_auto_accept: true,
        sso_org_auto_confirm: true,
        sso_org_auto_confirm_key: Some(BASE64.encode(&[7; 64])),
        sso_org_bootstrap: true,
        sso_org_bootstrap_name: Some(text("Default SSO Organization")),
        sso_org_bootstrap_billing_email: Some(text("admin@example.com")),
        sso_org_bootstrap_collection_name: text("Default collection"),
        sso_org_bot_email: text(BOT),
        default_refresh_validity: Lifetime { secs: 100, nanos: 0 },
        bw_expiration: Lifetime { secs: 300, nanos: 0 },
    }
}

fn context(rsa: &Rsa<Private>) -> Context {
    Context {
        config: config(),
        user: User {
            uuid: text("jane"),
            email: text("jane@example.com"),
            name: text("Jane"),
            public_key: Some(BASE64.encode(&rsa.public_key_to_der().unwrap())),
            private_key: Some(text("private")),
            verified_at: None,
        },
        device: Device { uuid: text("phone"), refresh_token: text("device"), atype: 8 },
        ip: text("192.0.2.7"),
        fresh: FreshIds {
            bot_user: text("bot"),
            bot_membership: text("bot-member"),
            collection: text("collection"),
            membership: text("member"),
        },
    }
}

fn key() -> Rsa<Private> {
    Rsa::generate(2048).unwrap()
}

fn opened(rsa: &Rsa<Private>, akey: &str) -> Vec<u8> {
    let bytes = BASE64.decode(akey.strip_prefix("4.").unwrap().as_bytes()).unwrap();
    let mut org_key = vec![0; rsa.size() as usize];
    let len = rsa.private_decrypt(&bytes, &mut org_key, Padding::PKCS1_OAEP).unwrap();
    org_key.truncate(len);
    org_key
}

fn copy_of_user(user: &User) -> User {
    User {
        uuid: user.uuid.clone(),
        email: user.email.clone(),
        name: user.name.clone(),
        public_key: user.public_key.clone(),
        private_key: user.private_key.clone(),
        verified_at: user.verified_at,
    }
}

fn copy_of_collection(collection: &Collection) -> Collection {
    Collection {
        uuid: collection.uuid.clone(),
        org_uuid: collection.org_uuid.clone(),
        name: collection.name.clone(),
    }
}

fn copy_of_org(org: &Organization) -> Organization {
    Organization {
        uuid: org.uuid.clone(),
        name: org.name.clone(),
        billing_email: org.billing_email.clone(),
    }
}

/// A server that keeps its records in memory, and can be told to refuse an action.
#[derive(Default)]
struct Server {
    orgs: Vec<Organization>,
    users: Vec<User>,
    links: Vec<SsoUser>,
    members: Vec<Membership>,
    collections: Vec<Collection>,
    events: Vec<EventType>,
    errors: Vec<String>,
    mails: Vec<Mail>,
    policies: Vec<PolicyUse>,
    deleted: Vec<String>,
    refuses: Option<&'static str>,
    faster: Option<Membership>,
}

impl Server {
    fn done(&self, action: &str) -> Reply {
        if self.refuses == Some(action) {
            Reply::Done(Err(SsoError::Backend(format!("{action} refused"))))
        } else {
            Reply::Done(Ok(()))
        }
    }

    fn member(&self, user_uuid: &str) -> Option<&Membership> {
        self.members.iter().find(|m| m.user_uuid == user_uuid && m.org_uuid == "org")
    }

    fn put(&mut self, member: Membership) {
        self.members
            .retain(|m| m.user_uuid != member.user_uuid || m.org_uuid != member.org_uuid);
        self.members.push(member);
    }

    fn perform(&mut self, action: Action) -> Reply {
        match action {
            Action::FindOrganization { uuid } => {
                Reply::Organization(self.orgs.iter().find(|o| o.uuid == uuid).map(copy_of_org))
            }
            Action::SaveOrganization(org) => {
                self.orgs.push(org);
                self.done("SaveOrganization")
            }
            Action::FindUserByMail { email } => {
                Reply::User(self.users.iter().find(|u| u.email == email).map(copy_of_user))
            }
            Action::SaveUser(user) => {
                self.users.push(user);
                self.done("SaveUser")
            }
            Action::FindSsoUserByMail { email } => {
                let user = self.users.iter().find(|u| u.email == email);
                Reply::SsoUser(user.map(|u| {
                    self.links.iter().find(|l| l.user_uuid == u.uuid).map(|l| SsoUser {
                        user_uuid: l.user_uuid.clone(),
                        identifier: l.identifier.clone(),
                    })
                }))
            }
            Action::SaveSsoUser(link) => {
                self.links.push(link);
                self.done("SaveSsoUser")
            }
            Action::FindMembership { user_uuid, org_uuid } => Reply::Membership(
                self.members
                    .iter()
                    .find(|m| m.user_uuid == user_uuid && m.org_uuid == org_uuid)
                    .cloned(),
            ),
            Action::SaveMembership(member) => {
                let reply = self.done("SaveMembership");
                if matches!(reply, Reply::Done(Ok(()))) {
                    self.put(member);
                } else if let Some(faster) = self.faster.take() {
                    self.put(faster);
                }
                reply
            }
            Action::AcceptInvite(mut member) => {
                let reply = self.done("AcceptInvite");
                if matches!(reply, Reply::Done(Ok(()))) {
                    member.status = MembershipStatus::Accepted;
                    self.put(member);
                }
                reply
            }
            Action::FindCollections { org_uuid } => Reply::Collections(
                self.collections
                    .iter()
                    .filter(|c| c.org_uuid == org_uuid)
                    .map(copy_of_collection)
                    .collect(),
            ),
            Action::SaveCollection(collection) => {
                self.collections.push(collection);
                self.done("SaveCollection")
            }
            Action::CheckPolicy { policy_use, .. } => {
                self.policies.push(policy_use);
                match policy_use {
                    PolicyUse::Join => self.done("Join"),
                    PolicyUse::Confirm => self.done("Confirm"),
                }
            }
            Action::LogEvent { event, user_uuid, device_type, ip, .. } => {
                assert_eq!(user_uuid, "jane");
                assert_eq!((device_type, ip.as_str()), (8, "192.0.2.7"));
                self.events.push(event);
                Reply::Logged
            }
            Action::LogError { message } => {
                self.errors.push(message);
                Reply::Logged
            }
            Action::SendMail(mail) => {
                self.mails.push(mail);
                self.done("SendMail")
            }
            Action::SealOrgKey { .. } => panic!("the library seals keys itself"),
            Action::DeleteSsoAuth { state } => {
                self.deleted.push(state);
                self.done("DeleteSsoAuth")
            }
        }
    }

    fn reconcile(&mut self, ctx: &Context) -> Result<(), SsoError> {
        let mut step = reconcile_default_org_membership(ctx);
        loop {
            match step {
                Step::Call(state, action) => step = state.resume(ctx, self.perform(action)),
                Step::Done(result) => return result,
            }
        }
    }

    fn redeem(&mut self, ctx: &Context, request: RedeemRequest) -> Result<AuthTokens, SsoError> {
        let mut step = redeem(request);
        loop {
            match step {
                Step::Call(state, action) => step = state.resume(ctx, self.perform(action)),
                Step::Done(result) => return result,
            }
        }
    }
}

fn org() -> Organization {
    Organization {
        uuid: text("org"),
        name: text("Older name"),
        billing_email: text("older@example.com"),
    }
}

fn with_org() -> Server {
    Server { orgs: vec![org()], ..Server::default() }
}

fn membership(status: MembershipStatus) -> Membership {
    Membership {
        uuid: text("older-member"),
        user_uuid: text("jane"),
        org_uuid: text("org"),
        invited_by_email: Some(text("somebody@example.com")),
        access_all: true,
        akey: String::new(),
        status,
        atype: MembershipType::Other(3),
    }
}

#[test]
fn new_user_is_provisioned_accepted_and_confirmed() {
    let rsa = key();
    let mut server = with_org();
    assert_eq!(server.reconcile(&context(&rsa)), Ok(()));
    let member = server.member("jane").unwrap();
    assert_eq!(member.uuid, "member");
    assert_eq!(member.invited_by_email.as_deref(), Some("older@example.com"));
    assert_eq!(member.status, MembershipStatus::Confirmed);
    assert_eq!(member.atype, MembershipType::User);
    assert!(!member.access_all);
    assert_eq!(opened(&rsa, &member.akey), vec![7; 64]);
    assert_eq!(server.policies, vec![PolicyUse::Join, PolicyUse::Confirm]);
    assert_eq!(
        server.events,
        vec![EventType::OrganizationUserInvited, EventType::OrganizationUserConfirmed]
    );
    assert_eq!(
        server.mails,
        vec![Mail::InviteConfirmed {
            email: text("jane@example.com"),
            org_name: text("Older name")
        }]
    );
}

#[test]
fn invited_user_is_accepted_and_confirmed() {
    let rsa = key();
    let mut server = with_org();
    server.put(membership(MembershipStatus::Invited));
    assert_eq!(server.reconcile(&context(&rsa)), Ok(()));
    let member = server.member("jane").unwrap();
    let mut expected = membership(MembershipStatus::Confirmed);
    expected.akey = member.akey.clone();
    assert_eq!(member, &expected);
    assert_eq!(opened(&rsa, &member.akey), vec![7; 64]);
    assert_eq!(server.policies, vec![PolicyUse::Confirm]);
}

#[test]
fn accepted_user_is_confirmed() {
    let rsa = key();
    let mut server = with_org();
    server.put(membership(MembershipStatus::Accepted));
    let mut ctx = context(&rsa);
    ctx.config.sso_org_invite_auto_accept = false;
    assert_eq!(server.reconcile(&ctx), Ok(()));
    let member = server.member("jane").unwrap();
    assert_eq!(member.status, MembershipStatus::Confirmed);
    assert_eq!(member.uuid, "older-member");
    assert_eq!(opened(&rsa, &member.akey), vec![7; 64]);
}

#[test]
fn settled_user_is_left_alone() {
    for status in [MembershipStatus::Confirmed, MembershipStatus::Other(-1)] {
        let mut server = with_org();
        server.put(membership(status));
        assert_eq!(server.reconcile(&context(&key())), Ok(()));
        assert_eq!(server.member("jane"), Some(&membership(status)));
        assert!(server.mails.is_empty() && server.events.is_empty());
    }
}

fn idle(rsa: &Rsa<Private>) -> Context {
    let mut ctx = context(rsa);
    ctx.config.sso_org_auto_provision = false;
    ctx.config.sso_org_invite_auto_accept = false;
    ctx.config.sso_org_auto_confirm = false;
    ctx.config.sso_org_bootstrap = false;
    ctx
}

#[test]
fn nothing_happens_unless_configured() {
    assert_eq!(reconcile_default_org_membership(&idle(&key())), Step::Done(Ok(())));
}

#[test]
fn confirmation_needs_no_other_setting() {
    let rsa = key();
    let mut ctx = idle(&rsa);
    ctx.config.sso_org_auto_confirm = true;
    let mut server = with_org();
    server.put(membership(MembershipStatus::Accepted));
    assert_eq!(server.reconcile(&ctx), Ok(()));
    let member = server.member("jane").unwrap();
    assert_eq!(member.status, MembershipStatus::Confirmed);
    assert_eq!(opened(&rsa, &member.akey), vec![7; 64]);
    let mut server = with_org();
    server.put(membership(MembershipStatus::Invited));
    assert_eq!(server.reconcile(&ctx), Ok(()));
    assert_eq!(server.member("jane"), Some(&membership(MembershipStatus::Invited)));
}

#[test]
fn bootstrap_needs_no_other_setting() {
    let mut ctx = idle(&key());
    ctx.config.sso_org_bootstrap = true;
    let mut server = Server::default();
    assert_eq!(server.reconcile(&ctx), Ok(()));
    assert_eq!(server.orgs.len(), 1);
    assert_eq!(server.member("bot").unwrap().atype, MembershipType::Owner);
    assert_eq!(server.member("jane"), None);
}

#[test]
fn new_user_is_only_invited_where_nothing_is_accepted() {
    let mut ctx = context(&key());
    ctx.config.sso_org_invite_auto_accept = false;
    ctx.config.sso_org_auto_confirm = false;
    let mut server = with_org();
    assert_eq!(server.reconcile(&ctx), Ok(()));
    assert_eq!(server.member("jane").unwrap().status, MembershipStatus::Invited);
    assert_eq!(
        server.mails,
        vec![Mail::Invite {
            email: text("jane@example.com"),
            org_uuid: text("org"),
            member_uuid: text("member"),
            org_name: text("Older name"),
            invited_by_email: Some(text("older@example.com")),
        }]
    );
}

#[test]
fn user_is_told_of_a_membership_that_is_not_confirmed() {
    let enrolled =
        || Mail::Enrolled { email: text("jane@example.com"), org_name: text("Older name") };
    let mut ctx = context(&key());
    ctx.config.sso_org_auto_confirm = false;
    let mut server = with_org();
    assert_eq!(server.reconcile(&ctx), Ok(()));
    assert_eq!(server.member("jane").unwrap().status, MembershipStatus::Accepted);
    assert_eq!(server.mails, vec![enrolled()]);
    let mut server = with_org();
    server.put(membership(MembershipStatus::Invited));
    assert_eq!(server.reconcile(&ctx), Ok(()));
    assert_eq!(server.member("jane").unwrap().status, MembershipStatus::Accepted);
    assert_eq!(server.mails, vec![enrolled()]);
    ctx.config.mail_enabled = false;
    let mut server = with_org();
    assert_eq!(server.reconcile(&ctx), Ok(()));
    assert!(server.mails.is_empty());
}

#[test]
fn invitation_stays_where_nothing_is_accepted() {
    let mut ctx = context(&key());
    ctx.config.sso_org_invite_auto_accept = false;
    let mut server = with_org();
    server.put(membership(MembershipStatus::Invited));
    assert_eq!(server.reconcile(&ctx), Ok(()));
    assert_eq!(server.member("jane"), Some(&membership(MembershipStatus::Invited)));
}

#[test]
fn user_is_not_provisioned_where_users_are_only_accepted() {
    let mut ctx = context(&key());
    ctx.config.sso_org_auto_provision = false;
    let mut server = with_org();
    assert_eq!(server.reconcile(&ctx), Ok(()));
    assert_eq!(server.member("jane"), None);
}

#[test]
fn missing_organization_is_made() {
    let mut server = Server::default();
    assert_eq!(server.reconcile(&context(&key())), Ok(()));
    assert_eq!(
        server.orgs,
        vec![Organization {
            uuid: text("org"),
            name: text("Default SSO Organization"),
            billing_email: text("admin@example.com"),
        }]
    );
    assert_eq!(
        server.collections,
        vec![Collection {
            uuid: text("collection"),
            org_uuid: text("org"),
            name: text("Default collection"),
        }]
    );
    let member = server.member("jane").unwrap();
    assert_eq!(member.invited_by_email.as_deref(), Some("admin@example.com"));
}

#[test]
fn collection_of_that_name_is_used_again() {
    let kept = || Collection {
        uuid: text("older-collection"),
        org_uuid: text("org"),
        name: text("Default collection"),
    };
    let mut server = Server { collections: vec![kept()], ..Server::default() };
    assert_eq!(server.reconcile(&context(&key())), Ok(()));
    assert_eq!(server.collections, vec![kept()]);
}

#[test]
fn existing_organization_is_kept() {
    let mut server = with_org();
    assert_eq!(server.reconcile(&context(&key())), Ok(()));
    assert_eq!(server.orgs, vec![org()]);
    assert!(server.collections.is_empty());
}

#[test]
fn bot_comes_to_own_the_organization() {
    let mut server = with_org();
    assert_eq!(server.reconcile(&context(&key())), Ok(()));
    let bot = &server.users[0];
    assert_eq!(bot.email, BOT_LOWER);
    assert_eq!(bot.name, "SSO Organization Bot");
    assert_eq!((&bot.public_key, &bot.private_key), (&None, &None));
    assert!(bot.verified_at.is_some());
    assert_eq!(
        server.member("bot"),
        Some(&Membership {
            uuid: text("bot-member"),
            user_uuid: text("bot"),
            org_uuid: text("org"),
            invited_by_email: None,
            access_all: true,
            akey: String::new(),
            status: MembershipStatus::Confirmed,
            atype: MembershipType::Owner,
        })
    );
}

#[test]
fn bot_is_made_an_owner_again() {
    let account = || User {
        uuid: text("older-bot"),
        email: text(BOT_LOWER),
        name: text("SSO Organization Bot"),
        public_key: None,
        private_key: None,
        verified_at: Some(UtcTime { secs: 5, nanos: 0 }),
    };
    let weak = Membership {
        uuid: text("older-bot-member"),
        user_uuid: text("older-bot"),
        org_uuid: text("org"),
        invited_by_email: None,
        access_all: false,
        akey: text("akey"),
        status: MembershipStatus::Invited,
        atype: MembershipType::User,
    };
    let mut server = Server {
        orgs: vec![org()],
        users: vec![account()],
        members: vec![weak],
        ..Server::default()
    };
    assert_eq!(server.reconcile(&context(&key())), Ok(()));
    assert_eq!(server.users, vec![account()]);
    let member = server.member("older-bot").unwrap();
    assert_eq!(member.uuid, "older-bot-member");
    assert_eq!(member.akey, "akey");
    assert!(member.access_all);
    assert_eq!(member.status, MembershipStatus::Confirmed);
    assert_eq!(member.atype, MembershipType::Owner);
}

#[test]
fn bot_is_seen_to_once() {
    let ctx = context(&key());
    let mut server = with_org();
    let mut wrote = vec![];
    for _ in 0..2 {
        let mut writes = 0;
        let mut step = ensure_sso_org_bot_membership(&ctx, &text("org"));
        while let Step::Call(state, action) = step {
            if matches!(action, Action::SaveUser(_) | Action::SaveMembership(_)) {
                writes += 1;
            }
            let now = UtcTime { secs: 9, nanos: 0 };
            step = state.advance(&ctx, server.perform(action), now);
        }
        assert_eq!(step, Step::Done(Ok(())));
        wrote.push(writes);
    }
    assert_eq!(wrote, vec![2, 0]);
    assert_eq!((server.users.len(), server.members.len()), (1, 1));
}

#[test]
fn bot_cannot_be_claimed() {
    let account = |name: &str, private_key: Option<&str>| User {
        uuid: text("mallory"),
        email: text(BOT_LOWER),
        name: text(name),
        public_key: None,
        private_key: private_key.map(text),
        verified_at: None,
    };
    let link = SsoUser { user_uuid: text("mallory"), identifier: text("idp/1") };
    for (user, links) in [
        (account("SSO Organization Bot", Some("private")), vec![]),
        (account("Mallory", None), vec![]),
        (account("SSO Organization Bot", None), vec![link]),
    ] {
        let mut server = with_org();
        server.users.push(user);
        server.links = links;
        let refused = server.reconcile(&context(&key())).unwrap_err();
        assert_eq!(refused, SsoError::BotEmailInUse(text(BOT_LOWER)));
        assert_eq!(
            refused.message(),
            "SSO_ORG_BOT_EMAIL sso-org-bot@vaultwarden.local is already used by an interactive or \
             SSO-linked account"
        );
        assert!(server.members.is_empty());
    }
}

#[test]
fn bot_address_is_reserved_in_any_case() {
    let mut config = config();
    assert!(is_reserved_sso_org_bot_email(BOT, &config));
    assert!(is_reserved_sso_org_bot_email(BOT_LOWER, &config));
    assert!(is_reserved_sso_org_bot_email("SSO-ORG-BOT@VAULTWARDEN.LOCAL", &config));
    assert!(!is_reserved_sso_org_bot_email("jane@example.com", &config));
    config.sso_org_bot_email = text("\u{c9}va@x.org");
    assert!(is_reserved_sso_org_bot_email("\u{e9}va@x.org", &config));
    assert!(is_reserved_sso_org_bot_email("\u{c9}VA@X.ORG", &config));
    assert!(!is_reserved_sso_org_bot_email("eva@x.org", &config));
    config.sso_org_bot_email = text(BOT);
    config.sso_org_bootstrap = false;
    assert!(!is_reserved_sso_org_bot_email(BOT, &config));
}

#[test]
fn without_bootstrap_no_bot_is_made() {
    let mut ctx = context(&key());
    ctx.config.sso_org_bootstrap = false;
    let mut server = with_org();
    assert_eq!(server.reconcile(&ctx), Ok(()));
    assert!(server.users.is_empty());
    assert_eq!(server.members.len(), 1);
}

#[test]
fn login_without_its_organization_fails() {
    let mut ctx = context(&key());
    ctx.config.sso_org_bootstrap_billing_email = None;
    let refused = Server::default().reconcile(&ctx);
    assert_eq!(refused, Err(SsoError::MissingBootstrapBillingEmail));
    ctx.config.sso_org_bootstrap_name = None;
    assert_eq!(Server::default().reconcile(&ctx), Err(SsoError::MissingBootstrapName));
    ctx.config.sso_org_bootstrap = false;
    assert_eq!(
        Server::default().reconcile(&ctx),
        Err(SsoError::DefaultOrgNotFound(text("org")))
    );
    ctx.config.sso_default_org_id = None;
    assert_eq!(Server::default().reconcile(&ctx), Err(SsoError::MissingDefaultOrgId));
}

#[test]
fn other_members_are_kept() {
    let mut server = with_org();
    let mut other = membership(MembershipStatus::Invited);
    other.user_uuid = text("john");
    server.put(other.clone());
    assert_eq!(server.reconcile(&context(&key())), Ok(()));
    assert_eq!(server.member("john"), Some(&other));
}

#[test]
fn second_login_changes_nothing() {
    let rsa = key();
    let mut server = Server::default();
    assert_eq!(server.reconcile(&context(&rsa)), Ok(()));
    let before: Vec<Membership> = server.members.clone();
    let (users, collections) = (server.users.len(), server.collections.len());
    let mut again = context(&rsa);
    again.fresh.membership = text("another-member");
    again.fresh.bot_user = text("another-bot");
    assert_eq!(server.reconcile(&again), Ok(()));
    assert_eq!(server.members, before);
    assert_eq!((server.users.len(), server.collections.len()), (users, collections));
}

#[test]
fn refused_user_does_not_join() {
    let mut server = with_org();
    server.refuses = Some("Join");
    assert_eq!(
        server.reconcile(&context(&key())),
        Err(SsoError::Backend(text("Join refused")))
    );
    assert_eq!(server.member("jane"), None);
}

#[test]
fn refused_confirmation_leaves_the_membership_accepted() {
    let ctx = context(&key());
    let mut server = with_org();
    server.refuses = Some("Confirm");
    assert_eq!(server.reconcile(&ctx), Ok(()));
    assert_eq!(server.member("jane").unwrap().status, MembershipStatus::Accepted);
    assert_eq!(server.member("jane").unwrap().akey, "");
    assert_eq!(
        server.errors,
        vec![text(
            "Failed to auto-confirm default SSO organization membership for jane@example.com: \
             Confirm refused"
        )]
    );
    // The next login has nothing else to do, and fails for it.
    let refused = server.reconcile(&ctx);
    assert_eq!(refused, Err(SsoError::Backend(text("Confirm refused"))));
    assert_eq!(server.member("jane").unwrap().status, MembershipStatus::Accepted);
}

#[test]
fn unsent_mail_is_noted_and_of_no_consequence() {
    let rsa = key();
    let unsent = |kind: &str| {
        vec![format!(
            "Failed to send SSO default org {kind} to jane@example.com: SendMail refused"
        )]
    };
    let mut server = with_org();
    server.refuses = Some("SendMail");
    assert_eq!(server.reconcile(&context(&rsa)), Ok(()));
    assert_eq!(server.member("jane").unwrap().status, MembershipStatus::Confirmed);
    assert_eq!(server.errors, unsent("confirmation mail"));
    let mut ctx = context(&rsa);
    ctx.config.sso_org_auto_confirm = false;
    let mut server = with_org();
    server.refuses = Some("SendMail");
    assert_eq!(server.reconcile(&ctx), Ok(()));
    assert_eq!(server.errors, unsent("notification"));
    let mut server = with_org();
    server.put(membership(MembershipStatus::Invited));
    server.refuses = Some("SendMail");
    assert_eq!(server.reconcile(&ctx), Ok(()));
    assert_eq!(server.errors, unsent("enrollment mail"));
}

#[test]
fn faster_login_wins() {
    let mut ctx = context(&key());
    ctx.config.sso_org_bootstrap = false;
    let mut server = with_org();
    server.refuses = Some("SaveMembership");
    server.faster = Some(membership(MembershipStatus::Confirmed));
    assert_eq!(server.reconcile(&ctx), Ok(()));
    assert_eq!(server.member("jane"), Some(&membership(MembershipStatus::Confirmed)));
    let mut server = with_org();
    server.refuses = Some("SaveMembership");
    assert_eq!(
        server.reconcile(&ctx),
        Err(SsoError::Backend(text("SaveMembership refused")))
    );
}

#[test]
fn failures_of_the_server_end_the_procedure() {
    for action in ["SaveOrganization", "SaveCollection", "SaveUser"] {
        let mut server = Server { refuses: Some(action), ..Server::default() };
        assert_eq!(
            server.reconcile(&context(&key())),
            Err(SsoError::Backend(format!("{action} refused")))
        );
    }
    let mut server = with_org();
    server.put(membership(MembershipStatus::Invited));
    server.refuses = Some("AcceptInvite");
    assert_eq!(
        server.reconcile(&context(&key())),
        Err(SsoError::Backend(text("AcceptInvite refused")))
    );
}

#[test]
fn reply_to_another_action_is_refused() {
    let ctx = context(&key());
    let now = UtcTime { secs: 1, nanos: 0 };
    let refused = || Step::Done(Err(SsoError::UnexpectedReply));
    assert_eq!(ReconcileState::MailingNotice.advance(&ctx, Reply::Logged, now), refused());
    assert_eq!(
        ReconcileState::Finding { org: org() }.advance(&ctx, Reply::User(None), now),
        refused()
    );
}

fn confirmation(ctx: &Context) -> Result<(), SsoError> {
    let member = membership(MembershipStatus::Accepted);
    match auto_confirm_default_org_membership(ctx, org(), member) {
        Step::Done(result) => result,
        Step::Call(..) => panic!("it is confirmed"),
    }
}

#[test]
fn confirmation_takes_both_keys() {
    let mut ctx = context(&key());
    ctx.config.sso_org_auto_confirm_key = Some(BASE64.encode(&[1; 48]));
    assert_eq!(confirmation(&ctx), Err(SsoError::AutoConfirmKeyLength));
    ctx.config.sso_org_auto_confirm_key = Some(text("****"));
    assert_eq!(
        confirmation(&ctx).unwrap_err().message(),
        "Failed to decode SSO_ORG_AUTO_CONFIRM_KEY: invalid symbol at 0"
    );
    ctx.user.public_key = None;
    assert_eq!(confirmation(&ctx), Err(SsoError::MissingPublicKey(text("jane@example.com"))));
    ctx.config.sso_org_auto_confirm_key = None;
    assert_eq!(confirmation(&ctx), Err(SsoError::MissingAutoConfirmKey));
    ctx.config.sso_org_auto_confirm = false;
    assert_eq!(confirmation(&ctx), Ok(()));
}

#[test]
fn only_an_accepted_membership_is_confirmed() {
    let ctx = context(&key());
    for status in [MembershipStatus::Invited, MembershipStatus::Confirmed] {
        assert_eq!(
            auto_confirm_default_org_membership(&ctx, org(), membership(status)),
            Step::Done(Ok(()))
        );
    }
}

#[test]
fn keys_of_both_lengths_are_sealed() {
    let public_key = text("public");
    for len in [32, 64] {
        let member = membership(MembershipStatus::Accepted);
        assert_eq!(
            seal_for_confirmation(org(), member.clone(), &public_key, Ok(vec![3; len])),
            Step::Call(
                ConfirmState::Sealing { org: org(), member },
                Action::SealOrgKey { org_key: vec![3; len], public_key: text("public") },
            )
        );
    }
    for len in [0, 31, 33, 63, 65] {
        let member = membership(MembershipStatus::Accepted);
        assert_eq!(
            seal_for_confirmation(org(), member, &public_key, Ok(vec![3; len])),
            Step::Done(Err(SsoError::AutoConfirmKeyLength))
        );
    }
}

#[test]
fn key_that_cannot_be_sealed_fails_the_confirmation() {
    let mut ctx = context(&key());
    ctx.user.public_key = Some(BASE64.encode(b"no key"));
    let mut server = with_org();
    server.put(membership(MembershipStatus::Accepted));
    assert!(matches!(server.reconcile(&ctx), Err(SsoError::PublicKeyNotParsed(_))));
    assert_eq!(server.member("jane"), Some(&membership(MembershipStatus::Accepted)));
    assert!(server.errors.is_empty());
}

#[test]
fn nobody_is_confirmed_without_keys() {
    let mut keyless = context(&key());
    keyless.user.public_key = None;
    let mut server = with_org();
    assert_eq!(server.reconcile(&keyless), Ok(()));
    assert_eq!(server.member("jane").unwrap().status, MembershipStatus::Accepted);
    let mut short = context(&key());
    short.config.sso_org_auto_confirm_key = Some(BASE64.encode(&[1; 16]));
    let mut server = with_org();
    server.put(membership(MembershipStatus::Invited));
    assert_eq!(server.reconcile(&short), Ok(()));
    assert_eq!(server.member("jane"), Some(&membership(MembershipStatus::Accepted)));
    assert_eq!(server.errors.len(), 1);
}

#[test]
fn way_of_a_first_login_takes_sixteen_replies() {
    let ctx = context(&key());
    let mut server = Server::default();
    let mut step = reconcile_default_org_membership(&ctx);
    let mut replies = 0;
    while let Step::Call(state, action) = step {
        step = state.resume(&ctx, server.perform(action));
        replies += 1;
    }
    assert_eq!(step, Step::Done(Ok(())));
    assert_eq!(replies, 16);
}

fn request(link: Option<SsoUser>) -> RedeemRequest {
    RedeemRequest {
        state: text("state"),
        sso_user: link,
        identifier: text("idp/4711"),
        session: SessionRequest {
            client_id: Some(text("web")),
            refresh_token: None,
            access_token: ProviderToken {
                secret: text("access"),
                reading: TokenReading { validation: Err(text("InvalidToken")), claims: None },
            },
            expires_in: Some(Lifetime { secs: 60, nanos: 0 }),
        },
    }
}

fn login() -> SsoAuth {
    SsoAuth {
        state: text("state"),
        code_response: Some(text("code")),
        code_response_error: None,
        auth_response: None,
        updated_at: UtcTime { secs: 1, nanos: 0 },
    }
}

fn jane() -> SsoUser {
    SsoUser { user_uuid: text("jane"), identifier: text("idp/4711") }
}

#[test]
fn redeemed_login_is_used_up_and_linked() {
    let mut server = with_org();
    match server.redeem(&context(&key()), request(None)) {
        Ok(AuthTokens::Provider { access_claims, refresh_claims }) => {
            assert_eq!(access_claims.exp, access_claims.nbf + 60);
            assert_eq!(access_claims.user_uuid, "jane");
            assert_eq!(access_claims.device_uuid, "phone");
            assert_eq!(refresh_claims.device_token, "device");
        }
        other => panic!("{other:?}"),
    }
    assert_eq!(server.deleted, vec![text("state")]);
    assert_eq!(server.links, vec![jane()]);
    assert_eq!(server.member("jane").unwrap().status, MembershipStatus::Confirmed);
}

#[test]
fn code_of_a_redeemed_login_is_refused() {
    let mut server = with_org();
    assert!(server.redeem(&context(&key()), request(None)).is_ok());
    let step = exchange_code(
        &OIDCCode::from("code"),
        OIDCCodeVerifier::from_form(text("verifier")),
    );
    // The code names the login with this state, which is no more.
    let found = if server.deleted.contains(&text("state")) { None } else { Some(login()) };
    match step {
        Step::Call(state, LoginAction::FindSsoAuth { .. }) => {
            assert_eq!(
                state.resume(LoginReply::SsoAuth(found)),
                Step::Done(Err(SsoError::InvalidCode))
            );
        }
        other => panic!("{other:?}"),
    }
}

#[test]
fn bot_does_not_log_in() {
    let mut config = config();
    for (bot, provided) in [
        (BOT, "SSO-ORG-bot@vaultwarden.LOCAL"),
        ("\u{c9}va@x.org", "\u{e9}VA@x.org"),
    ] {
        config.sso_org_bot_email = text(bot);
        let exchange = Exchange {
            token_response: TokenResponse {
                access_token: text("access"),
                refresh_token: None,
                expires_in: None,
            },
            id_claims: IdClaims {
                issuer: text("idp"),
                subject: text("1"),
                email: Some(text(provided)),
                email_verified: None,
                preferred_username: None,
            },
        };
        let info = UserInfo { email: None, email_verified: None, preferred_username: None };
        let user = authenticate(exchange, info).unwrap();
        assert!(is_reserved_sso_org_bot_email(&user.email, &config));
    }
}

#[test]
fn linked_user_is_not_linked_again() {
    let mut server = with_org();
    let mut ctx = idle(&key());
    ctx.config.sso_auth_only_not_session = true;
    assert_eq!(
        server.redeem(&ctx, request(Some(jane()))),
        Ok(AuthTokens::Own {
            user_uuid: text("jane"),
            device_uuid: text("phone"),
            method: AuthMethod::Sso,
            client_id: Some(text("web")),
        })
    );
    assert!(server.links.is_empty());
    assert!(server.members.is_empty());
}

#[test]
fn login_that_cannot_be_used_up_goes_no_further() {
    let mut server = with_org();
    server.refuses = Some("DeleteSsoAuth");
    assert_eq!(
        server.redeem(&context(&key()), request(None)),
        Err(SsoError::Backend(text("DeleteSsoAuth refused")))
    );
    assert!(server.links.is_empty() && server.members.is_empty());
}

#[test]
fn failed_membership_fails_the_login() {
    let mut server = Server::default();
    let mut ctx = context(&key());
    ctx.config.sso_default_org_id = None;
    assert_eq!(server.redeem(&ctx, request(None)), Err(SsoError::MissingDefaultOrgId));
    let mut server = Server { refuses: Some("SaveSsoUser"), ..Server::default() };
    assert_eq!(
        server.redeem(&ctx, request(None)),
        Err(SsoError::Backend(text("SaveSsoUser refused")))
    );
}
