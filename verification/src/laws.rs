//! Laws on what a login does to the memberships in the organization.
use vstd::prelude::*;
use vstd::utf8::encode_utf8;

use crate::base64::{base64_decoded, decodable};
use crate::bot::{bot_name, bot_start, may_be_bot, new_bot, BotState};
use crate::clock::{Clock, UtcTime};
use crate::confirm::{confirm_start, is_org_key, ConfirmState};
use crate::error::SsoError;
use crate::organization::{has_collection, BootstrapState, CollectionState, ResolveState};
use crate::protocol::{Action, ActionView, ContextView, PolicyUse, Reply, ReplyView, Step, StepView};
use crate::reconcile::{
    enrollment_unsent, new_membership, notice_unsent, reconcile_of_accepted, reconcile_of_new,
    reconcile_start, unconfirmed, ReconcileState, ReconcileStep,
};
use crate::records::{Membership, MembershipStatus, MembershipType, Organization, SsoUser};
use crate::redeem::{redeem_start, RedeemRequest, RedeemState};
use crate::store::{
    accepted, bot_asks, bot_in, bot_run, bot_turn, collection_in, confirm_in, law_bot_is_seen_to,
    law_reconciled, lemma_resolve_keeps_wf, lookup, membership_in, own_in, reconcile_in,
    resolve_in, run, Store,
};
use crate::text::lowercase;

verus! {

/// The configured key of the organization, where there is one.
pub open spec fn org_key_of(ctx: ContextView) -> Option<Seq<u8>> {
    match ctx.config.sso_org_auto_confirm_key {
        Some(key) => match base64_decoded(encode_utf8(key)) {
            Ok(org_key) => if decodable(encode_utf8(key)) && is_org_key(org_key) {
                Some(org_key)
            } else {
                None
            },
            Err(_) => None,
        },
        None => None,
    }
}

/// Memberships are confirmed, and nothing that this takes is missing.
pub open spec fn confirms(ctx: ContextView) -> bool {
    &&& ctx.config.sso_org_auto_confirm
    &&& org_key_of(ctx) is Some
    &&& ctx.user.public_key is Some
}

/// The organization's key, sealed for the user.
pub open spec fn akey_of(
    ctx: ContextView,
    seal: spec_fn(Seq<u8>, Seq<char>) -> Seq<char>,
) -> Seq<char> {
    seal(org_key_of(ctx)->0, ctx.user.public_key->0)
}

/// The user is not the bot that owns the organization.
pub open spec fn is_not_bot(ctx: ContextView, store: Store) -> bool {
    &&& ctx.user.uuid != ctx.fresh.bot_user
    &&& lookup(store.users, lowercase(ctx.config.sso_org_bot_email)) matches Some(bot)
        ==> ctx.user.uuid != bot.uuid
}

/// Where the settings want nothing of the organization, neither that users are provisioned,
/// invitations accepted or memberships confirmed, nor that there is an organization at all,
/// a login leaves the records alone and asks for nothing.
pub proof fn law_idle_unless_configured(
    ctx: ContextView,
    now: UtcTime,
    seal: spec_fn(Seq<u8>, Seq<char>) -> Seq<char>,
    store: Store,
)
    requires
        store.wf(),
        !ctx.config.sso_org_auto_provision,
        !ctx.config.sso_org_invite_auto_accept,
        !ctx.config.sso_org_auto_confirm,
        !ctx.config.sso_org_bootstrap,
    ensures
        reconcile_start(ctx) == ReconcileStep::Done(Ok(())),
        run(ctx, now, seal, store) == (store, ReconcileStep::Done(Ok(()))),
{
    law_reconciled(ctx, now, seal, store);
}

proof fn lemma_confirms(
    ctx: ContextView,
    seal: spec_fn(Seq<u8>, Seq<char>) -> Seq<char>,
    store: Store,
    org: Organization<Seq<char>>,
    member: Membership<Seq<char>>,
)
    requires
        confirms(ctx),
        member.status == MembershipStatus::Accepted,
    ensures
        confirm_in(ctx, seal, store, org, member) == (
            store.with_member(member.confirmed_with(akey_of(ctx, seal))),
            Ok::<(), SsoError<Seq<char>>>(()),
        ),
{
}

proof fn lemma_last_member_stays(
    store: Store,
    first: Membership<Seq<char>>,
    then: Membership<Seq<char>>,
)
    requires
        first.user_uuid == then.user_uuid,
        first.org_uuid == then.org_uuid,
    ensures
        store.with_member(first).with_member(then) == store.with_member(then),
{
    assert(store.with_member(first).with_member(then).members =~= store.with_member(
        then,
    ).members);
}

/// A new user, who has no membership yet, ends up with a confirmed one, where users are
/// provisioned, accepted and confirmed. It is an ordinary one, and nothing else is
/// touched once the organization is there.
pub proof fn law_new_user_is_confirmed(
    ctx: ContextView,
    now: UtcTime,
    seal: spec_fn(Seq<u8>, Seq<char>) -> Seq<char>,
    store: Store,
    org: Organization<Seq<char>>,
)
    requires
        store.wf(),
        ctx.config.sso_org_auto_provision,
        ctx.config.sso_org_invite_auto_accept,
        confirms(ctx),
        resolve_in(ctx, now, store).1 == Ok::<_, SsoError<Seq<char>>>(org),
        resolve_in(ctx, now, store).0.member(ctx.user.uuid, org.uuid) is None,
    ensures
        run(ctx, now, seal, store) == (
            resolve_in(ctx, now, store).0.with_member(
                Membership {
                    uuid: ctx.fresh.membership,
                    user_uuid: ctx.user.uuid,
                    org_uuid: org.uuid,
                    invited_by_email: Some(org.billing_email),
                    access_all: false,
                    akey: akey_of(ctx, seal),
                    status: MembershipStatus::Confirmed,
                    atype: MembershipType::User,
                },
            ),
            ReconcileStep::Done(Ok(())),
        ),
{
    law_reconciled(ctx, now, seal, store);
    let resolved = resolve_in(ctx, now, store).0;
    let joined = new_membership(ctx, org);
    lemma_confirms(ctx, seal, resolved.with_member(joined), org, joined);
    lemma_last_member_stays(resolved, joined, joined.confirmed_with(akey_of(ctx, seal)));
}

/// A user who was invited ends up with a confirmed membership, where invitations are
/// accepted and memberships confirmed. Nothing of it changes but the status and the key.
pub proof fn law_invited_user_is_confirmed(
    ctx: ContextView,
    now: UtcTime,
    seal: spec_fn(Seq<u8>, Seq<char>) -> Seq<char>,
    store: Store,
    org: Organization<Seq<char>>,
    member: Membership<Seq<char>>,
)
    requires
        store.wf(),
        ctx.config.sso_org_invite_auto_accept,
        confirms(ctx),
        resolve_in(ctx, now, store).1 == Ok::<_, SsoError<Seq<char>>>(org),
        resolve_in(ctx, now, store).0.member(ctx.user.uuid, org.uuid) == Some(member),
        member.status == MembershipStatus::Invited,
    ensures
        run(ctx, now, seal, store) == (
            resolve_in(ctx, now, store).0.with_member(
                member.confirmed_with(akey_of(ctx, seal)),
            ),
            ReconcileStep::Done(Ok(())),
        ),
{
    law_reconciled(ctx, now, seal, store);
    let resolved = resolve_in(ctx, now, store).0;
    let joined = accepted(member);
    lemma_confirms(ctx, seal, resolved.with_member(joined), org, joined);
    lemma_last_member_stays(resolved, joined, joined.confirmed_with(akey_of(ctx, seal)));
}

/// A user whose membership was accepted before ends up with a confirmed one, where
/// memberships are confirmed, whatever else is. Nothing of it changes but the status and the key.
pub proof fn law_accepted_user_is_confirmed(
    ctx: ContextView,
    now: UtcTime,
    seal: spec_fn(Seq<u8>, Seq<char>) -> Seq<char>,
    store: Store,
    org: Organization<Seq<char>>,
    member: Membership<Seq<char>>,
)
    requires
        store.wf(),
        confirms(ctx),
        resolve_in(ctx, now, store).1 == Ok::<_, SsoError<Seq<char>>>(org),
        resolve_in(ctx, now, store).0.member(ctx.user.uuid, org.uuid) == Some(member),
        member.status == MembershipStatus::Accepted,
    ensures
        run(ctx, now, seal, store) == (
            resolve_in(ctx, now, store).0.with_member(
                member.confirmed_with(akey_of(ctx, seal)),
            ),
            ReconcileStep::Done(Ok(())),
        ),
{
    law_reconciled(ctx, now, seal, store);
    lemma_confirms(ctx, seal, resolve_in(ctx, now, store).0, org, member);
}

/// Where memberships are not confirmed, a new user ends up with one that is accepted, or
/// that is an invitation where these are not accepted either.
pub proof fn law_new_user_joins(
    ctx: ContextView,
    now: UtcTime,
    seal: spec_fn(Seq<u8>, Seq<char>) -> Seq<char>,
    store: Store,
    org: Organization<Seq<char>>,
)
    requires
        store.wf(),
        ctx.config.sso_org_auto_provision,
        !ctx.config.sso_org_auto_confirm,
        resolve_in(ctx, now, store).1 == Ok::<_, SsoError<Seq<char>>>(org),
        resolve_in(ctx, now, store).0.member(ctx.user.uuid, org.uuid) is None,
    ensures
        run(ctx, now, seal, store) == (
            resolve_in(ctx, now, store).0.with_member(
                Membership {
                    uuid: ctx.fresh.membership,
                    user_uuid: ctx.user.uuid,
                    org_uuid: org.uuid,
                    invited_by_email: Some(org.billing_email),
                    access_all: false,
                    akey: Seq::empty(),
                    status: if ctx.config.sso_org_invite_auto_accept {
                        MembershipStatus::Accepted
                    } else {
                        MembershipStatus::Invited
                    },
                    atype: MembershipType::User,
                },
            ),
            ReconcileStep::Done(Ok(())),
        ),
{
    law_reconciled(ctx, now, seal, store);
}

/// Where invitations are not accepted, a new user is only invited, whatever else is wanted:
/// the membership is an invitation with no key in it, and it stays one, also where
/// memberships are confirmed and all the keys are there.
pub proof fn law_new_user_is_only_invited(
    ctx: ContextView,
    now: UtcTime,
    seal: spec_fn(Seq<u8>, Seq<char>) -> Seq<char>,
    store: Store,
    org: Organization<Seq<char>>,
)
    requires
        store.wf(),
        ctx.config.sso_org_auto_provision,
        !ctx.config.sso_org_invite_auto_accept,
        resolve_in(ctx, now, store).1 == Ok::<_, SsoError<Seq<char>>>(org),
        resolve_in(ctx, now, store).0.member(ctx.user.uuid, org.uuid) is None,
    ensures
        run(ctx, now, seal, store) == (
            resolve_in(ctx, now, store).0.with_member(
                Membership {
                    uuid: ctx.fresh.membership,
                    user_uuid: ctx.user.uuid,
                    org_uuid: org.uuid,
                    invited_by_email: Some(org.billing_email),
                    access_all: false,
                    akey: Seq::empty(),
                    status: MembershipStatus::Invited,
                    atype: MembershipType::User,
                },
            ),
            ReconcileStep::Done(Ok(())),
        ),
{
    law_reconciled(ctx, now, seal, store);
}

/// What becomes of the user's membership, whatever the settings are. Each setting does its
/// own step and no other: provisioning makes a membership where there is none, accepting
/// takes an invitation to accepted, and confirming takes an accepted one to confirmed, with
/// the key in it, where the keys are there. A membership that no setting moves stays as it
/// is. Only where one that was accepted before cannot be confirmed does the login fail.
pub proof fn law_each_setting_does_its_step(
    ctx: ContextView,
    now: UtcTime,
    seal: spec_fn(Seq<u8>, Seq<char>) -> Seq<char>,
    store: Store,
    org: Organization<Seq<char>>,
)
    requires
        store.wf(),
        resolve_in(ctx, now, store).1 == Ok::<_, SsoError<Seq<char>>>(org),
        ctx.config.sso_org_auto_provision || ctx.config.sso_org_invite_auto_accept
            || ctx.config.sso_org_auto_confirm || ctx.config.sso_org_bootstrap,
    ensures
        ({
            let resolved = resolve_in(ctx, now, store).0;
            let before = resolved.member(ctx.user.uuid, org.uuid);
            let (after, step) = run(ctx, now, seal, store);
            let there = if before is None && ctx.config.sso_org_auto_provision {
                Some(
                    Membership {
                        uuid: ctx.fresh.membership,
                        user_uuid: ctx.user.uuid,
                        org_uuid: org.uuid,
                        invited_by_email: Some(org.billing_email),
                        access_all: false,
                        akey: Seq::empty(),
                        status: MembershipStatus::Invited,
                        atype: MembershipType::User,
                    },
                )
            } else {
                before
            };
            let joined = if (there matches Some(member) && member.status
                == MembershipStatus::Invited && ctx.config.sso_org_invite_auto_accept) {
                Some(Membership { status: MembershipStatus::Accepted, ..there->0 })
            } else {
                there
            };
            let settled = if (joined matches Some(member) && member.status
                == MembershipStatus::Accepted && confirms(ctx)) {
                Some(
                    Membership {
                        status: MembershipStatus::Confirmed,
                        akey: akey_of(ctx, seal),
                        ..joined->0
                    },
                )
            } else {
                joined
            };
            &&& after == match settled {
                Some(member) => resolved.with_member(member),
                None => resolved,
            }
            &&& step is Done
            &&& (step matches Step::Done(Err(_))) <==> (before matches Some(member)
                && member.status == MembershipStatus::Accepted) && ctx.config.sso_org_auto_confirm
                && !confirms(ctx)
        }),
{
    law_reconciled(ctx, now, seal, store);
    let resolved = resolve_in(ctx, now, store).0;
    let before = resolved.member(ctx.user.uuid, org.uuid);
    lemma_resolve_keeps_wf(ctx, now, store);
    match before {
        Some(member) => {
            lemma_same_member_stays(resolved, member);
            let joined = accepted(member);
            if confirms(ctx) {
                lemma_confirms(ctx, seal, resolved, org, Membership {
                    status: MembershipStatus::Accepted,
                    ..member
                });
                lemma_confirms(ctx, seal, resolved.with_member(joined), org, joined);
            }
            lemma_last_member_stays(resolved, joined, joined.confirmed_with(akey_of(ctx, seal)));
        },
        None => {
            let joined = new_membership(ctx, org);
            if confirms(ctx) && joined.status == MembershipStatus::Accepted {
                lemma_confirms(ctx, seal, resolved.with_member(joined), org, joined);
            }
            lemma_last_member_stays(resolved, joined, joined.confirmed_with(akey_of(ctx, seal)));
        },
    }
}

/// Where memberships are not confirmed, an invitation is accepted, or left as it is where
/// invitations are not accepted either.
pub proof fn law_invitation_is_accepted(
    ctx: ContextView,
    now: UtcTime,
    seal: spec_fn(Seq<u8>, Seq<char>) -> Seq<char>,
    store: Store,
    org: Organization<Seq<char>>,
    member: Membership<Seq<char>>,
)
    requires
        store.wf(),
        ctx.config.wants_org(),
        !ctx.config.sso_org_auto_confirm,
        resolve_in(ctx, now, store).1 == Ok::<_, SsoError<Seq<char>>>(org),
        resolve_in(ctx, now, store).0.member(ctx.user.uuid, org.uuid) == Some(member),
        member.status == MembershipStatus::Invited,
    ensures
        run(ctx, now, seal, store) == (
            if ctx.config.sso_org_invite_auto_accept {
                resolve_in(ctx, now, store).0.with_member(accepted(member))
            } else {
                resolve_in(ctx, now, store).0
            },
            ReconcileStep::Done(Ok(())),
        ),
{
    law_reconciled(ctx, now, seal, store);
}

/// Nobody is confirmed without the keys that this takes: where a user's membership is
/// confirmed after such a login, it was the same before.
pub proof fn law_no_confirmation_without_keys(
    ctx: ContextView,
    now: UtcTime,
    seal: spec_fn(Seq<u8>, Seq<char>) -> Seq<char>,
    store: Store,
    org_uuid: Seq<char>,
)
    requires
        store.wf(),
        is_not_bot(ctx, store),
        !confirms(ctx),
    ensures
        run(ctx, now, seal, store).0.member(ctx.user.uuid, org_uuid) matches Some(after)
            ==> after.status == MembershipStatus::Confirmed ==> store.member(
            ctx.user.uuid,
            org_uuid,
        ) == Some(after),
{
    law_reconciled(ctx, now, seal, store);
}

/// A user who is a member already, or whose membership was revoked, is left alone.
pub proof fn law_settled_user_is_left_alone(
    ctx: ContextView,
    now: UtcTime,
    seal: spec_fn(Seq<u8>, Seq<char>) -> Seq<char>,
    store: Store,
    org: Organization<Seq<char>>,
    member: Membership<Seq<char>>,
)
    requires
        store.wf(),
        ctx.config.wants_org(),
        resolve_in(ctx, now, store).1 == Ok::<_, SsoError<Seq<char>>>(org),
        resolve_in(ctx, now, store).0.member(ctx.user.uuid, org.uuid) == Some(member),
        member.status is Confirmed || member.status is Other,
    ensures
        run(ctx, now, seal, store) == (
            resolve_in(ctx, now, store).0,
            ReconcileStep::Done(Ok(())),
        ),
{
    law_reconciled(ctx, now, seal, store);
}

/// An organization that exists is never renamed, given another billing address, or
/// replaced; the collections of the one that users belong to stay as they are.
pub proof fn law_existing_org_is_kept(
    ctx: ContextView,
    now: UtcTime,
    seal: spec_fn(Seq<u8>, Seq<char>) -> Seq<char>,
    store: Store,
    uuid: Seq<char>,
)
    requires
        store.wf(),
        store.orgs.dom().contains(uuid),
    ensures
        lookup(run(ctx, now, seal, store).0.orgs, uuid) == Some(store.orgs[uuid]),
        run(ctx, now, seal, store).0.collections_of(uuid) == store.collections_of(uuid),
{
    law_reconciled(ctx, now, seal, store);
}

/// The organization that is configured and does not exist is made, as it is configured
/// and with its first collection, where that is wanted.
pub proof fn law_missing_org_is_made(
    ctx: ContextView,
    now: UtcTime,
    seal: spec_fn(Seq<u8>, Seq<char>) -> Seq<char>,
    store: Store,
    org: Organization<Seq<char>>,
)
    requires
        store.wf(),
        ctx.config.sso_org_bootstrap,
        ctx.config.sso_default_org_id == Some(org.uuid),
        ctx.config.sso_org_bootstrap_name == Some(org.name),
        ctx.config.sso_org_bootstrap_billing_email == Some(org.billing_email),
        !store.orgs.dom().contains(org.uuid),
    ensures
        lookup(run(ctx, now, seal, store).0.orgs, org.uuid) == Some(org),
        has_collection(
            run(ctx, now, seal, store).0.collections_of(org.uuid),
            ctx.config.sso_org_bootstrap_collection_name,
        ),
{
    law_reconciled(ctx, now, seal, store);
    let name = ctx.config.sso_org_bootstrap_collection_name;
    let saved = store.with_org(org);
    let made = collection_in(ctx, saved, org.uuid);
    if !has_collection(saved.collections_of(org.uuid), name) {
        let collections = made.collections_of(org.uuid);
        assert(collections[collections.len() - 1].name == name);
    }
    assert(has_collection(made.collections_of(org.uuid), name));
}

/// A collection of the configured name is used again: where the organization has one, no
/// collection is made.
pub proof fn law_collection_is_reused(
    ctx: ContextView,
    now: UtcTime,
    seal: spec_fn(Seq<u8>, Seq<char>) -> Seq<char>,
    store: Store,
    org_uuid: Seq<char>,
)
    requires
        store.wf(),
        has_collection(
            store.collections_of(org_uuid),
            ctx.config.sso_org_bootstrap_collection_name,
        ),
    ensures
        run(ctx, now, seal, store).0.collections_of(org_uuid) == store.collections_of(org_uuid),
{
    law_reconciled(ctx, now, seal, store);
}

/// Without a configured organization, or with one that does not exist and is not to be
/// made, a login that wants it fails and leaves the records alone.
pub proof fn law_no_org_no_login(
    ctx: ContextView,
    now: UtcTime,
    seal: spec_fn(Seq<u8>, Seq<char>) -> Seq<char>,
    store: Store,
)
    requires
        store.wf(),
        ctx.config.wants_org(),
        ctx.config.sso_default_org_id matches Some(uuid) ==> !store.orgs.dom().contains(uuid)
            && !ctx.config.sso_org_bootstrap,
    ensures
        run(ctx, now, seal, store) == (
            store,
            ReconcileStep::Done(
                Err(
                    match ctx.config.sso_default_org_id {
                        Some(uuid) => SsoError::DefaultOrgNotFound(uuid),
                        None => SsoError::MissingDefaultOrgId,
                    },
                ),
            ),
        ),
{
    law_reconciled(ctx, now, seal, store);
}

/// Where a bot is wanted and the organization is found or made, there is an account with
/// the bot's name and address that nobody can log in with, and it owns the organization.
/// The identifier for a new bot must be one that no link to the provider is for.
pub proof fn law_bot_owns_the_org(
    ctx: ContextView,
    now: UtcTime,
    seal: spec_fn(Seq<u8>, Seq<char>) -> Seq<char>,
    store: Store,
    org: Organization<Seq<char>>,
)
    requires
        store.wf(),
        ctx.config.sso_org_bootstrap,
        !store.links.dom().contains(ctx.fresh.bot_user),
        resolve_in(ctx, now, store).1 == Ok::<_, SsoError<Seq<char>>>(org),
    ensures
        ({
            let email = lowercase(ctx.config.sso_org_bot_email);
            let after = run(ctx, now, seal, store).0;
            let bot = lookup(after.users, email);
            &&& bot is Some
            &&& bot->0.name == bot_name()
            &&& bot->0.private_key is None
            &&& after.link_of(email) == Some(None::<SsoUser<Seq<char>>>)
            &&& after.member(bot->0.uuid, org.uuid) matches Some(member) && member
                == member.made_owner()
        }),
{
    law_reconciled(ctx, now, seal, store);
}

/// Where the bot's address belongs to an account that may not be the bot, a login that
/// wants the organization fails, and neither that account nor any membership is touched:
/// the account does not come to own the organization.
pub proof fn law_bot_cannot_be_claimed(
    ctx: ContextView,
    now: UtcTime,
    seal: spec_fn(Seq<u8>, Seq<char>) -> Seq<char>,
    store: Store,
    uuid: Seq<char>,
)
    requires
        store.wf(),
        ctx.config.sso_org_bootstrap,
        ctx.config.sso_default_org_id == Some(uuid),
        store.orgs.dom().contains(uuid) || (ctx.config.sso_org_bootstrap_name is Some
            && ctx.config.sso_org_bootstrap_billing_email is Some),
        ({
            let email = lowercase(ctx.config.sso_org_bot_email);
            store.users.dom().contains(email) && !may_be_bot(
                store.users[email],
                store.link_of(email),
            )
        }),
    ensures
        run(ctx, now, seal, store).1 == ReconcileStep::Done(
            Err(SsoError::BotEmailInUse(lowercase(ctx.config.sso_org_bot_email))),
        ),
        run(ctx, now, seal, store).0.users == store.users,
        run(ctx, now, seal, store).0.members == store.members,
{
    law_reconciled(ctx, now, seal, store);
}

/// A login makes no user an owner: a membership that the user had keeps its type and its
/// access, and one that the user gets is an ordinary one.
pub proof fn law_user_is_not_promoted(
    ctx: ContextView,
    now: UtcTime,
    seal: spec_fn(Seq<u8>, Seq<char>) -> Seq<char>,
    store: Store,
    org_uuid: Seq<char>,
)
    requires
        store.wf(),
        is_not_bot(ctx, store),
    ensures
        match (
            store.member(ctx.user.uuid, org_uuid),
            run(ctx, now, seal, store).0.member(ctx.user.uuid, org_uuid),
        ) {
            (Some(before), Some(after)) => {
                &&& after.uuid == before.uuid
                &&& after.atype == before.atype
                &&& after.access_all == before.access_all
            },
            (None, Some(after)) => after.atype == MembershipType::User && !after.access_all,
            (Some(_), None) => false,
            (None, None) => true,
        },
{
    law_reconciled(ctx, now, seal, store);
}

/// A login touches no membership but that of the user and that of the bot.
pub proof fn law_other_members_are_kept(
    ctx: ContextView,
    now: UtcTime,
    seal: spec_fn(Seq<u8>, Seq<char>) -> Seq<char>,
    store: Store,
    user_uuid: Seq<char>,
    org_uuid: Seq<char>,
)
    requires
        store.wf(),
        user_uuid != ctx.user.uuid,
        user_uuid != ctx.fresh.bot_user,
        lookup(store.users, lowercase(ctx.config.sso_org_bot_email)) matches Some(bot)
            ==> user_uuid != bot.uuid,
    ensures
        run(ctx, now, seal, store).0.member(user_uuid, org_uuid) == store.member(
            user_uuid,
            org_uuid,
        ),
{
    law_reconciled(ctx, now, seal, store);
}

/// The bot needs nothing more: it owns the organization, or its address belongs to an
/// account that may not be the bot.
spec fn bot_is_settled(ctx: ContextView, store: Store, org_uuid: Seq<char>) -> bool {
    let email = lowercase(ctx.config.sso_org_bot_email);
    ctx.config.sso_org_bootstrap ==> {
        &&& store.users.dom().contains(email)
        &&& may_be_bot(store.users[email], store.link_of(email)) ==> (store.member(
            store.users[email].uuid,
            org_uuid,
        ) matches Some(member) && member == member.made_owner())
    }
}

proof fn lemma_same_member_stays(store: Store, member: Membership<Seq<char>>)
    requires
        store.member(member.user_uuid, member.org_uuid) == Some(member),
    ensures
        store.with_member(member) == store,
{
    assert(store.with_member(member).members =~= store.members);
}

proof fn lemma_settled_bot_stays(ctx: ContextView, now: UtcTime, store: Store, org_uuid: Seq<char>)
    requires
        store.wf(),
        bot_is_settled(ctx, store, org_uuid),
    ensures
        bot_in(ctx, now, store, org_uuid).0 == store,
{
    let email = lowercase(ctx.config.sso_org_bot_email);
    if ctx.config.sso_org_bootstrap && may_be_bot(store.users[email], store.link_of(email)) {
        let member = store.members[(store.users[email].uuid, org_uuid)];
        lemma_same_member_stays(store, member);
    }
}

proof fn lemma_bot_is_settled(ctx: ContextView, now: UtcTime, store: Store, org_uuid: Seq<char>)
    requires
        store.wf(),
    ensures
        bot_in(ctx, now, store, org_uuid).0.wf(),
        bot_in(ctx, now, store, org_uuid).0.orgs == store.orgs,
        bot_is_settled(ctx, bot_in(ctx, now, store, org_uuid).0, org_uuid),
{
    let email = lowercase(ctx.config.sso_org_bot_email);
    if ctx.config.sso_org_bootstrap {
        let known = match lookup(store.users, email) {
            Some(_) => store,
            None => store.with_user(new_bot(ctx, email, now)),
        };
        let bot = known.users[email];
        let owning = own_in(ctx, known, bot.uuid, org_uuid);
        assert(owning.member(bot.uuid, org_uuid) is Some);
    }
}

/// The action changes the records.
pub open spec fn writes(action: ActionView) -> bool {
    ||| action is SaveOrganization
    ||| action is SaveUser
    ||| action is SaveSsoUser
    ||| action is SaveMembership
    ||| action is AcceptInvite
    ||| action is SaveCollection
    ||| action is DeleteSsoAuth
}

/// Once the bot was seen to, seeing to it again succeeds and writes nothing: no account and
/// no membership is made or saved. The identifier for a new bot must be one that no link to
/// the provider is for.
pub proof fn law_bot_is_seen_to_once(
    ctx: ContextView,
    again: ContextView,
    now: UtcTime,
    later: UtcTime,
    seal: spec_fn(Seq<u8>, Seq<char>) -> Seq<char>,
    store: Store,
    org_uuid: Seq<char>,
)
    requires
        store.wf(),
        again.config == ctx.config,
        ctx.config.sso_org_bootstrap && !store.users.dom().contains(
            lowercase(ctx.config.sso_org_bot_email),
        ) ==> !store.links.dom().contains(ctx.fresh.bot_user),
        bot_in(ctx, now, store, org_uuid).1 is Ok,
    ensures
        ({
            let first = bot_run(ctx, now, seal, store, org_uuid).0;
            let asked = bot_asks(again, later, seal, (first, bot_start(again, org_uuid)), 4);
            &&& bot_in(again, later, first, org_uuid) == (first, Ok::<(), SsoError<Seq<char>>>(()))
            &&& bot_run(again, later, seal, first, org_uuid) == (
                first,
                StepView::<BotState<Seq<char>>, ()>::Done(Ok(())),
            )
            &&& forall|i: int| 0 <= i < asked.len() ==> !writes(#[trigger] asked[i])
        }),
{
    law_bot_is_seen_to(ctx, now, seal, store, org_uuid);
    let first = bot_in(ctx, now, store, org_uuid).0;
    lemma_bot_is_settled(ctx, now, store, org_uuid);
    lemma_settled_bot_stays(again, later, first, org_uuid);
    law_bot_is_seen_to(again, later, seal, first, org_uuid);
    reveal_with_fuel(bot_asks, 5);
    let at = (first, bot_start(again, org_uuid));
    let once = bot_turn(again, later, seal, at);
    let twice = bot_turn(again, later, seal, once);
    let thrice = bot_turn(again, later, seal, twice);
    assert(thrice.1 is Done);
}

/// A membership that the bot has already is kept, but for what makes it that of an owner:
/// its type, its status and its access.
pub proof fn law_bot_membership_is_kept(
    ctx: ContextView,
    now: UtcTime,
    seal: spec_fn(Seq<u8>, Seq<char>) -> Seq<char>,
    store: Store,
    org_uuid: Seq<char>,
    member: Membership<Seq<char>>,
)
    requires
        store.wf(),
        ctx.config.sso_org_bootstrap,
        ({
            let email = lowercase(ctx.config.sso_org_bot_email);
            &&& store.users.dom().contains(email)
            &&& may_be_bot(store.users[email], store.link_of(email))
            &&& store.member(store.users[email].uuid, org_uuid) == Some(member)
        }),
    ensures
        bot_run(ctx, now, seal, store, org_uuid) == (
            store.with_member(
                Membership {
                    uuid: member.uuid,
                    user_uuid: member.user_uuid,
                    org_uuid: member.org_uuid,
                    invited_by_email: member.invited_by_email,
                    access_all: true,
                    akey: member.akey,
                    status: MembershipStatus::Confirmed,
                    atype: MembershipType::Owner,
                },
            ),
            StepView::<BotState<Seq<char>>, ()>::Done(Ok(())),
        ),
{
    law_bot_is_seen_to(ctx, now, seal, store, org_uuid);
}

/// The user's membership is touched only where it is missing, invited or accepted, and
/// what it becomes stays as it is.
proof fn lemma_membership_is_settled(
    ctx: ContextView,
    again: ContextView,
    seal: spec_fn(Seq<u8>, Seq<char>) -> Seq<char>,
    seal_again: spec_fn(Seq<u8>, Seq<char>) -> Seq<char>,
    store: Store,
    org: Organization<Seq<char>>,
)
    requires
        store.wf(),
        again.config == ctx.config,
        again.user == ctx.user,
        bot_is_settled(ctx, store, org.uuid),
    ensures
        ({
            let after = membership_in(ctx, seal, store, org).0;
            &&& after.wf()
            &&& after.orgs == store.orgs
            &&& bot_is_settled(ctx, after, org.uuid)
            &&& membership_in(again, seal_again, after, org).0 == after
        }),
{
    let after = membership_in(ctx, seal, store, org).0;
    let before = store.member(ctx.user.uuid, org.uuid);
    let then = after.member(ctx.user.uuid, org.uuid);
    assert(after == match then {
        Some(member) => store.with_member(member),
        None => store,
    }) by {
        if before is Some {
            lemma_same_member_stays(store, before->0);
        }
        if then is Some {
            assert(store.with_member(then->0).members =~= after.members);
        }
    }
    if then is Some {
        lemma_same_member_stays(after, then->0);
        lemma_last_member_stays(after, accepted(then->0), then->0);
    }
}

/// A second login, later, with other identifiers for new records and where keys are sealed
/// otherwise, finds everything done: it leaves the records as the first has left them.
pub proof fn law_second_login_changes_nothing(
    ctx: ContextView,
    again: ContextView,
    now: UtcTime,
    later: UtcTime,
    seal: spec_fn(Seq<u8>, Seq<char>) -> Seq<char>,
    seal_again: spec_fn(Seq<u8>, Seq<char>) -> Seq<char>,
    store: Store,
)
    requires
        store.wf(),
        again.config == ctx.config,
        again.user == ctx.user,
    ensures
        ({
            let first = run(ctx, now, seal, store).0;
            run(again, later, seal_again, first).0 == first
        }),
{
    law_reconciled(ctx, now, seal, store);
    let first = reconcile_in(ctx, now, seal, store).0;
    let config = ctx.config;
    let wanted = config.wants_org();
    let found = config.sso_default_org_id is Some && store.orgs.dom().contains(
        config.sso_default_org_id->0,
    );
    let made = config.sso_default_org_id is Some && config.sso_org_bootstrap
        && config.sso_org_bootstrap_name is Some && config.sso_org_bootstrap_billing_email is Some;
    if wanted && (found || made) {
        let uuid = config.sso_default_org_id->0;
        let org = if found {
            store.orgs[uuid]
        } else {
            Organization {
                uuid,
                name: config.sso_org_bootstrap_name->0,
                billing_email: config.sso_org_bootstrap_billing_email->0,
            }
        };
        let base = if found {
            store
        } else {
            collection_in(ctx, store.with_org(org), uuid)
        };
        assert(base.wf());
        let (owning, result) = bot_in(ctx, now, base, uuid);
        lemma_bot_is_settled(ctx, now, base, uuid);
        if result is Ok {
            lemma_membership_is_settled(ctx, again, seal, seal_again, owning, org);
        }
        assert(bot_is_settled(again, first, uuid));
        lemma_settled_bot_stays(again, later, first, uuid);
        assert(lookup(first.orgs, uuid) == Some(org));
    }
    law_reconciled(again, later, seal_again, first);
}

/// How many replies a procedure still takes at most, from each state on.
pub open spec fn bot_rank(state: BotState<Seq<char>>) -> nat {
    match state {
        BotState::FindingUser { .. } => 4,
        BotState::CheckingLink { .. } => 3,
        BotState::SavingUser { .. } => 3,
        BotState::FindingMembership { .. } => 2,
        BotState::SavingMembership => 1,
    }
}

/// How many replies the search for the organization still takes at most.
pub open spec fn resolve_rank(state: ResolveState<Seq<char>>) -> nat {
    match state {
        ResolveState::Finding { .. } => 8,
        ResolveState::Bot { bot, .. } => bot_rank(bot),
        ResolveState::Bootstrap(BootstrapState::Saving { .. }) => 7,
        ResolveState::Bootstrap(BootstrapState::Collection { collection, .. }) => {
            match collection {
                CollectionState::Finding { .. } => 6,
                CollectionState::Saving => 5,
            }
        },
        ResolveState::Bootstrap(BootstrapState::Bot { bot, .. }) => bot_rank(bot),
    }
}

/// How many replies a confirmation still takes at most.
pub open spec fn confirm_rank(state: ConfirmState<Seq<char>>) -> nat {
    match state {
        ConfirmState::Sealing { .. } => 6,
        ConfirmState::CheckingPolicy { .. } => 5,
        ConfirmState::Logging { .. } => 4,
        ConfirmState::Mailing { .. } => 3,
        ConfirmState::MailFailed { .. } => 2,
        ConfirmState::Saving => 1,
    }
}

/// How many replies the whole procedure still takes at most.
pub open spec fn reconcile_rank(state: ReconcileState<Seq<char>>) -> nat {
    match state {
        ReconcileState::Resolving(state) => 12 + resolve_rank(state),
        ReconcileState::Finding { .. } => 12,
        ReconcileState::Confirming(state) => confirm_rank(state),
        ReconcileState::Accepting { .. } => 11,
        ReconcileState::FindingAccepted { .. } => 10,
        ReconcileState::ConfirmingAccepted { state, .. } => 3 + confirm_rank(state),
        ReconcileState::ConfirmFailed { .. } => 3,
        ReconcileState::CheckingPolicy { .. } => 10,
        ReconcileState::Saving { .. } => 9,
        ReconcileState::Recovering { .. } => 1,
        ReconcileState::Logging { .. } => 8,
        ReconcileState::ConfirmingNew(state) => 1 + confirm_rank(state),
        ReconcileState::MailingEnrolled => 2,
        ReconcileState::MailingNotice => 2,
        ReconcileState::Noting => 1,
    }
}

/// The procedure ends, whatever the replies are: each brings the end closer, and there
/// are twenty at most.
pub proof fn law_always_ends(
    state: ReconcileState<Seq<char>>,
    ctx: ContextView,
    reply: ReplyView,
    now: UtcTime,
)
    ensures
        reconcile_start(ctx) matches Step::Call(first, _) ==> reconcile_rank(first) <= 20,
        state.after(ctx, reply, now) matches Step::Call(next, _) ==> reconcile_rank(next)
            < reconcile_rank(state),
{
}

/// How many replies the end of a login still takes at most.
pub open spec fn redeem_rank(state: RedeemState<Seq<char>>) -> nat {
    match state {
        RedeemState::Deleting { .. } => 22,
        RedeemState::Linking { .. } => 21,
        RedeemState::Reconciling { membership, .. } => reconcile_rank(membership),
    }
}

/// The end of a login ends itself, whatever the replies are: each brings the end closer,
/// and there are twenty-two at most.
pub proof fn law_redeem_always_ends(
    request: RedeemRequest<Seq<char>>,
    state: RedeemState<Seq<char>>,
    ctx: ContextView,
    reply: ReplyView,
    clock: Clock,
)
    ensures
        redeem_start(request) matches Step::Call(first, _) && redeem_rank(first) == 22,
        state.after(ctx, reply, clock) matches Step::Call(next, _) ==> redeem_rank(next)
            < redeem_rank(state),
{
    if let RedeemState::Reconciling { membership, .. } = state {
        law_always_ends(membership, ctx, reply, clock.utc);
    } else {
        law_always_ends(ReconcileState::Noting, ctx, reply, clock.utc);
    }
}

/// Only an accepted membership is confirmed, and only where that is configured.
pub proof fn law_only_accepted_is_confirmed(
    ctx: ContextView,
    org: Organization<Seq<char>>,
    member: Membership<Seq<char>>,
)
    ensures
        !ctx.config.sso_org_auto_confirm || member.status != MembershipStatus::Accepted
            ==> confirm_start(ctx, org, member) == StepView::<
            ConfirmState<Seq<char>>,
            (),
        >::Done(Ok(())),
{
}

/// A membership is confirmed only after the policies have allowed just this membership,
/// and it is noted before it is written down.
pub proof fn law_confirmation_follows_policy(
    state: ConfirmState<Seq<char>>,
    ctx: ContextView,
    reply: ReplyView,
)
    ensures
        state.after(ctx, reply) matches Step::Call(_, Action::SaveMembership(saved)) ==> {
            ||| state matches ConfirmState::Logging { member, .. } && member == saved
            ||| state matches ConfirmState::Mailing { member } && member == saved
            ||| state matches ConfirmState::MailFailed { member } && member == saved
        },
        state.after(ctx, reply) matches Step::Call(ConfirmState::MailFailed { member }, _) ==> (
        state matches ConfirmState::Mailing { member: told } && told == member),
        state.after(ctx, reply) matches Step::Call(ConfirmState::Mailing { member }, _) ==> (
        state matches ConfirmState::Logging { member: noted, .. } && noted == member),
        state.after(ctx, reply) matches Step::Call(ConfirmState::Logging { org, member }, _) ==> {
            &&& state == (ConfirmState::CheckingPolicy { org, member })
            &&& reply matches Reply::Done(Ok(_))
        },
        state.after(ctx, reply) matches Step::Call(
            ConfirmState::CheckingPolicy { member, .. },
            action,
        ) ==> action == (ActionView::CheckPolicy { member, policy_use: PolicyUse::Confirm }),
{
}

/// Where the policies refuse, the refusal stands: a user who would join does not, and a
/// login that would only have confirmed a membership fails.
pub proof fn law_policy_refusal_stands(
    ctx: ContextView,
    org: Organization<Seq<char>>,
    member: Membership<Seq<char>>,
    error: SsoError<Seq<char>>,
    now: UtcTime,
)
    ensures
        (ReconcileState::CheckingPolicy { org, member }).after(
            ctx,
            Reply::Done(Err(error)),
            now,
        ) == ReconcileStep::Done(Err(error)),
        ReconcileState::Confirming(ConfirmState::CheckingPolicy { org, member }).after(
            ctx,
            Reply::Done(Err(error)),
            now,
        ) == ReconcileStep::Done(Err(error)),
{
}

/// Where a new membership cannot be written down because another login was faster, the
/// login goes on; where it cannot for any other reason, it fails for that reason.
pub proof fn law_faster_login_wins(
    ctx: ContextView,
    org: Organization<Seq<char>>,
    member: Membership<Seq<char>>,
    error: SsoError<Seq<char>>,
    found: Option<Membership<Seq<char>>>,
    now: UtcTime,
)
    ensures
        (ReconcileState::Saving { org, member }).after(ctx, Reply::Done(Err(error)), now)
            == ReconcileStep::Call(
            ReconcileState::Recovering { error },
            Action::FindMembership { user_uuid: ctx.user.uuid, org_uuid: org.uuid },
        ),
        (ReconcileState::Recovering { error }).after(ctx, Reply::Membership(found), now)
            == ReconcileStep::Done(
            match found {
                Some(_) => Ok(()),
                None => Err(error),
            },
        ),
{
}

/// That a mail cannot be sent is noted, and of no other consequence: the procedure goes on,
/// or ends well, as if it had been sent.
pub proof fn law_mail_is_of_no_consequence(
    ctx: ContextView,
    member: Membership<Seq<char>>,
    error: SsoError<Seq<char>>,
    now: UtcTime,
)
    ensures
        (ConfirmState::Mailing { member }).after(ctx, Reply::Done(Err(error))) matches Step::Call(
            noting,
            Action::LogError { .. },
        ) && noting.after(ctx, Reply::Logged) == (ConfirmState::Mailing { member }).after(
            ctx,
            Reply::Done(Ok(())),
        ),
        ReconcileState::MailingEnrolled.after(ctx, Reply::Done(Err(error)), now)
            == ReconcileStep::Call(
            ReconcileState::Noting,
            ctx.complaint(enrollment_unsent(), error),
        ),
        ReconcileState::MailingNotice.after(ctx, Reply::Done(Err(error)), now)
            == ReconcileStep::Call(ReconcileState::Noting, ctx.complaint(notice_unsent(), error)),
        ReconcileState::Noting.after(ctx, Reply::Logged, now) == ReconcileStep::Done(Ok(())),
{
}

/// That a membership which is new, or was accepted just now, cannot be confirmed is noted,
/// and does not fail the login.
pub proof fn law_unconfirmed_is_noted(
    ctx: ContextView,
    org: Organization<Seq<char>>,
    error: SsoError<Seq<char>>,
    now: UtcTime,
)
    ensures
        reconcile_of_new(ctx, Step::Done(Err(error))) == ReconcileStep::Call(
            ReconcileState::Noting,
            ctx.complaint(unconfirmed(), error),
        ),
        reconcile_of_accepted(ctx, org, Step::Done(Err(error))) == ReconcileStep::Call(
            ReconcileState::ConfirmFailed { org },
            ctx.complaint(unconfirmed(), error),
        ),
        ReconcileState::Noting.after(ctx, Reply::Logged, now) == ReconcileStep::Done(Ok(())),
        (ReconcileState::ConfirmFailed { org }).after(ctx, Reply::Logged, now)
            == reconcile_of_accepted(ctx, org, Step::Done(Ok(()))),
{
}

} // verus!
