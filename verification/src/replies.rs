//! What holds of a user's membership whatever the server replies: laws over any sequence of
//! replies, refusals and failures included.
//!
//! Only lookups are taken at their word: where one is answered, it is answered with the
//! record that is there. What is written is there once the server says so, and not before.
use vstd::prelude::*;

use crate::bot::BotState;
use crate::clock::{Clock, UtcTime};
use crate::confirm::ConfirmState;
use crate::error::SsoError;
use crate::laws::is_not_bot;
use crate::login::{login_start, LoginAction, LoginReply, LoginStep};
use crate::organization::{BootstrapState, ResolveState};
use crate::protocol::{Action, ActionView, ContextView, Reply, ReplyView, Step};
use crate::reconcile::{new_membership, reconcile_start, ReconcileState};
use crate::records::{Membership, MembershipStatus, MembershipType};
use crate::redeem::{redeem_start, RedeemRequest};
use crate::store::{accepted, lookup, Position, Store};
use crate::text::lowercase;

verus! {

impl Store {
    /// The records after the server has replied to an action: what was to be written is
    /// there if the server says that it is done.
    pub open spec fn performed(self, action: ActionView, reply: ReplyView) -> Store {
        match (action, reply) {
            (Action::SaveOrganization(org), Reply::Done(Ok(_))) => self.with_org(org),
            (Action::SaveUser(user), Reply::Done(Ok(_))) => self.with_user(user),
            (Action::SaveSsoUser(link), Reply::Done(Ok(_))) => Store {
                links: self.links.insert(link.user_uuid, link),
                ..self
            },
            (Action::SaveMembership(member), Reply::Done(Ok(_))) => self.with_member(member),
            (Action::AcceptInvite(member), Reply::Done(Ok(_))) => self.with_member(
                accepted(member),
            ),
            (Action::SaveCollection(collection), Reply::Done(Ok(_))) => self.with_collection(
                collection,
            ),
            (Action::DeleteSsoAuth { state }, Reply::Done(Ok(_))) => self.without_login(state),
            _ => self,
        }
    }

    /// The reply, where it answers a lookup, answers it with what is there.
    pub open spec fn truthful(self, action: ActionView, reply: ReplyView) -> bool {
        match (action, reply) {
            (Action::FindOrganization { uuid }, Reply::Organization(found)) => found == lookup(
                self.orgs,
                uuid,
            ),
            (Action::FindUserByMail { email }, Reply::User(found)) => found == lookup(
                self.users,
                email,
            ),
            (Action::FindMembership { user_uuid, org_uuid }, Reply::Membership(found)) => found
                == self.member(user_uuid, org_uuid),
            _ => true,
        }
    }
}

/// The position after one more reply, at the instant.
pub open spec fn heard(
    ctx: ContextView,
    at: Position,
    reply: ReplyView,
    now: UtcTime,
) -> Position {
    match at.1 {
        Step::Call(state, action) => (
            at.0.performed(action, reply),
            state.after(ctx, reply, now),
        ),
        Step::Done(_) => at,
    }
}

/// The position after the replies, each at its instant.
pub open spec fn trace(
    ctx: ContextView,
    store: Store,
    talk: Seq<(ReplyView, UtcTime)>,
) -> Position
    decreases talk.len(),
{
    if talk.len() == 0 {
        (store, reconcile_start(ctx))
    } else {
        let at = trace(ctx, store, talk.drop_last());
        heard(ctx, at, talk.last().0, talk.last().1)
    }
}

/// The replies tell the truth wherever they answer a lookup.
pub open spec fn honest(
    ctx: ContextView,
    store: Store,
    talk: Seq<(ReplyView, UtcTime)>,
) -> bool
    decreases talk.len(),
{
    talk.len() > 0 ==> {
        let at = trace(ctx, store, talk.drop_last());
        &&& honest(ctx, store, talk.drop_last())
        &&& at.1 matches Step::Call(_, action) ==> at.0.truthful(action, talk.last().0)
    }
}

/// The identifier is that of the bot, or of the account that would be taken for it.
pub open spec fn is_bot(ctx: ContextView, store: Store, uuid: Seq<char>) -> bool {
    ||| uuid == ctx.fresh.bot_user
    ||| (lookup(store.users, lowercase(ctx.config.sso_org_bot_email)) matches Some(bot)
        && bot.uuid == uuid)
}

/// The membership has come no further back: it is the same but for its status, which may
/// have come from invited to accepted and on to confirmed, and its key, which may have come
/// with the confirmation. Any other status stays. A new membership is an ordinary one.
pub open spec fn moved_forward(
    before: Option<Membership<Seq<char>>>,
    after: Option<Membership<Seq<char>>>,
) -> bool {
    match (before, after) {
        (None, None) => true,
        (None, Some(after)) => after.atype == MembershipType::User && !after.access_all,
        (Some(_), None) => false,
        (Some(before), Some(after)) => {
            ||| after == before
            ||| before.status == MembershipStatus::Invited && after == accepted(before)
            ||| (before.status == MembershipStatus::Invited || before.status
                == MembershipStatus::Accepted) && after == before.confirmed_with(after.akey)
        },
    }
}

spec fn is_default(ctx: ContextView, org_uuid: Seq<char>) -> bool {
    ctx.config.sso_default_org_id == Some(org_uuid)
}

/// The action writes no organization, user or membership.
spec fn is_harmless(action: ActionView) -> bool {
    &&& !(action is SaveOrganization)
    &&& !(action is SaveUser)
    &&& !(action is SaveMembership)
    &&& !(action is AcceptInvite)
}

/// The membership, which is accepted, is the user's.
spec fn awaits(ctx: ContextView, store: Store, member: Membership<Seq<char>>) -> bool {
    &&& is_default(ctx, member.org_uuid)
    &&& store.member(ctx.user.uuid, member.org_uuid) == Some(member)
    &&& member.status == MembershipStatus::Accepted
}

/// The membership is the user's, which is accepted, as it will be when it is confirmed.
spec fn completes(ctx: ContextView, store: Store, member: Membership<Seq<char>>) -> bool {
    store.member(ctx.user.uuid, member.org_uuid) matches Some(waiting) && {
        &&& awaits(ctx, store, waiting)
        &&& member == waiting.confirmed_with(member.akey)
    }
}

spec fn confirm_fits(
    ctx: ContextView,
    store: Store,
    state: ConfirmState<Seq<char>>,
    action: ActionView,
) -> bool {
    match state {
        ConfirmState::Sealing { member, .. } => awaits(ctx, store, member) && is_harmless(action),
        ConfirmState::CheckingPolicy { member, .. } => completes(ctx, store, member)
            && is_harmless(action),
        ConfirmState::Logging { member, .. } => completes(ctx, store, member) && is_harmless(
            action,
        ),
        ConfirmState::Mailing { member } => completes(ctx, store, member) && is_harmless(action),
        ConfirmState::MailFailed { member } => completes(ctx, store, member) && is_harmless(
            action,
        ),
        ConfirmState::Saving => action matches Action::SaveMembership(member) && completes(
            ctx,
            store,
            member,
        ),
    }
}

spec fn bot_fits(
    ctx: ContextView,
    first: Store,
    org_uuid: Seq<char>,
    state: BotState<Seq<char>>,
    action: ActionView,
) -> bool {
    let known_by = lowercase(ctx.config.sso_org_bot_email);
    match state {
        BotState::FindingUser { org_uuid: of, email } => {
            &&& of == org_uuid
            &&& email == known_by
            &&& action == (ActionView::FindUserByMail { email })
        },
        BotState::CheckingLink { org_uuid: of, bot, .. } => {
            &&& of == org_uuid
            &&& is_bot(ctx, first, bot.uuid)
            &&& is_harmless(action)
        },
        BotState::SavingUser { org_uuid: of, bot_uuid } => {
            &&& of == org_uuid
            &&& is_bot(ctx, first, bot_uuid)
            &&& action matches Action::SaveUser(bot) && bot.uuid == ctx.fresh.bot_user && bot.email
                == known_by
        },
        BotState::FindingMembership { org_uuid: of, bot_uuid } => {
            &&& of == org_uuid
            &&& is_bot(ctx, first, bot_uuid)
            &&& action == (ActionView::FindMembership { user_uuid: bot_uuid, org_uuid })
        },
        BotState::SavingMembership => action matches Action::SaveMembership(member) && is_bot(
            ctx,
            first,
            member.user_uuid,
        ),
    }
}

spec fn resolve_fits(
    ctx: ContextView,
    first: Store,
    store: Store,
    state: ResolveState<Seq<char>>,
    action: ActionView,
) -> bool {
    match state {
        ResolveState::Finding { org_uuid } => {
            &&& is_default(ctx, org_uuid)
            &&& action == (ActionView::FindOrganization { uuid: org_uuid })
        },
        ResolveState::Bot { org, bot } => {
            &&& is_default(ctx, org.uuid)
            &&& bot_fits(ctx, first, org.uuid, bot, action)
        },
        ResolveState::Bootstrap(BootstrapState::Saving { org }) => {
            &&& is_default(ctx, org.uuid)
            &&& !store.orgs.dom().contains(org.uuid)
            &&& action == ActionView::SaveOrganization(org)
        },
        ResolveState::Bootstrap(BootstrapState::Collection { org, .. }) => {
            &&& is_default(ctx, org.uuid)
            &&& is_harmless(action)
        },
        ResolveState::Bootstrap(BootstrapState::Bot { org, bot }) => {
            &&& is_default(ctx, org.uuid)
            &&& bot_fits(ctx, first, org.uuid, bot, action)
        },
    }
}

/// What is asked for in the state is what the records call for.
spec fn fits(
    ctx: ContextView,
    first: Store,
    store: Store,
    state: ReconcileState<Seq<char>>,
    action: ActionView,
) -> bool {
    match state {
        ReconcileState::Resolving(state) => resolve_fits(ctx, first, store, state, action),
        ReconcileState::Finding { org } | ReconcileState::FindingAccepted { org } => {
            &&& is_default(ctx, org.uuid)
            &&& action == (ActionView::FindMembership {
                user_uuid: ctx.user.uuid,
                org_uuid: org.uuid,
            })
        },
        ReconcileState::Confirming(state) => confirm_fits(ctx, store, state, action),
        ReconcileState::ConfirmingAccepted { state, .. } => confirm_fits(
            ctx,
            store,
            state,
            action,
        ),
        ReconcileState::ConfirmingNew(state) => confirm_fits(ctx, store, state, action),
        ReconcileState::Accepting { org } => {
            &&& is_default(ctx, org.uuid)
            &&& action matches Action::AcceptInvite(member) && store.member(
                ctx.user.uuid,
                org.uuid,
            ) == Some(member) && member.status == MembershipStatus::Invited
        },
        ReconcileState::CheckingPolicy { org, member } => {
            &&& is_default(ctx, org.uuid)
            &&& member == new_membership(ctx, org)
            &&& store.member(ctx.user.uuid, org.uuid) is None
            &&& is_harmless(action)
        },
        ReconcileState::Saving { org, member } => {
            &&& is_default(ctx, org.uuid)
            &&& member == new_membership(ctx, org)
            &&& store.member(ctx.user.uuid, org.uuid) is None
            &&& action == ActionView::SaveMembership(member)
        },
        ReconcileState::Logging { org, member } => {
            &&& is_default(ctx, org.uuid)
            &&& member == new_membership(ctx, org)
            &&& store.member(ctx.user.uuid, org.uuid) == Some(member)
            &&& is_harmless(action)
        },
        _ => is_harmless(action),
    }
}

/// The records have come from the first ones by nothing but what a login may do.
spec fn kept(ctx: ContextView, first: Store, store: Store) -> bool {
    &&& store.wf()
    &&& forall|uuid: Seq<char>| #[trigger]
        first.orgs.dom().contains(uuid) ==> lookup(store.orgs, uuid) == Some(first.orgs[uuid])
    &&& lookup(store.users, lowercase(ctx.config.sso_org_bot_email)) matches Some(bot) ==> is_bot(
        ctx,
        first,
        bot.uuid,
    )
    &&& !is_bot(ctx, first, ctx.user.uuid) ==> forall|org_uuid: Seq<char>|
        moved_forward(
            first.member(ctx.user.uuid, org_uuid),
            #[trigger] store.member(ctx.user.uuid, org_uuid),
        )
    &&& forall|user_uuid: Seq<char>, org_uuid: Seq<char>|
        !is_bot(ctx, first, user_uuid) && (user_uuid != ctx.user.uuid || !is_default(ctx, org_uuid))
            ==> #[trigger] store.member(user_uuid, org_uuid) == first.member(user_uuid, org_uuid)
}

spec fn sound(ctx: ContextView, first: Store, at: Position) -> bool {
    &&& kept(ctx, first, at.0)
    &&& at.1 matches Step::Call(state, action) ==> fits(ctx, first, at.0, state, action)
}

/// What is written keeps the records as they may be.
proof fn lemma_performed(
    ctx: ContextView,
    first: Store,
    store: Store,
    state: ReconcileState<Seq<char>>,
    action: ActionView,
    reply: ReplyView,
)
    requires
        kept(ctx, first, store),
        fits(ctx, first, store, state, action),
    ensures
        kept(ctx, first, store.performed(action, reply)),
{
    let after = store.performed(action, reply);
    let user_uuid = ctx.user.uuid;
    assert forall|org_uuid: Seq<char>| !is_bot(ctx, first, user_uuid) implies moved_forward(
        first.member(user_uuid, org_uuid),
        #[trigger] after.member(user_uuid, org_uuid),
    ) by {
        let before = store.member(user_uuid, org_uuid);
        assert(moved_forward(first.member(user_uuid, org_uuid), before));
    }
    assert forall|other: Seq<char>, org_uuid: Seq<char>|
        !is_bot(ctx, first, other) && (other != user_uuid || !is_default(ctx, org_uuid))
            implies #[trigger] after.member(other, org_uuid) == first.member(other, org_uuid) by {
        assert(store.member(other, org_uuid) == first.member(other, org_uuid));
    }
}

proof fn lemma_step_fits(
    ctx: ContextView,
    first: Store,
    store: Store,
    state: ReconcileState<Seq<char>>,
    action: ActionView,
    reply: ReplyView,
    now: UtcTime,
)
    requires
        kept(ctx, first, store),
        fits(ctx, first, store, state, action),
        store.truthful(action, reply),
    ensures
        state.after(ctx, reply, now) matches Step::Call(next, asked) ==> fits(
            ctx,
            first,
            store.performed(action, reply),
            next,
            asked,
        ),
{
}

proof fn lemma_trace(
    ctx: ContextView,
    store: Store,
    talk: Seq<(ReplyView, UtcTime)>,
)
    requires
        store.wf(),
        honest(ctx, store, talk),
    ensures
        sound(ctx, store, trace(ctx, store, talk)),
    decreases talk.len(),
{
    if talk.len() > 0 {
        lemma_trace(ctx, store, talk.drop_last());
        let at = trace(ctx, store, talk.drop_last());
        if let Step::Call(state, action) = at.1 {
            let (reply, now) = talk.last();
            lemma_performed(ctx, store, at.0, state, action, reply);
            lemma_step_fits(ctx, store, at.0, state, action, reply, now);
        }
    }
}

/// Whatever the server replies, a login makes no user an owner and takes nobody back: the
/// user's membership keeps its type and its access, its status only moves forward, a
/// revoked one stays revoked, and a new one is an ordinary one. Memberships in other
/// organizations stay as they are.
pub proof fn law_no_reply_promotes(
    ctx: ContextView,
    store: Store,
    talk: Seq<(ReplyView, UtcTime)>,
    org_uuid: Seq<char>,
)
    requires
        store.wf(),
        is_not_bot(ctx, store),
        honest(ctx, store, talk),
    ensures
        ({
            let before = store.member(ctx.user.uuid, org_uuid);
            let after = trace(ctx, store, talk).0.member(ctx.user.uuid, org_uuid);
            &&& moved_forward(before, after)
            &&& ctx.config.sso_default_org_id != Some(org_uuid) ==> after == before
        }),
{
    lemma_trace(ctx, store, talk);
}

/// Whatever the server replies, a login touches no membership but that of the user and that
/// of the bot.
pub proof fn law_no_reply_touches_others(
    ctx: ContextView,
    store: Store,
    talk: Seq<(ReplyView, UtcTime)>,
    user_uuid: Seq<char>,
    org_uuid: Seq<char>,
)
    requires
        store.wf(),
        honest(ctx, store, talk),
        user_uuid != ctx.user.uuid,
        !is_bot(ctx, store, user_uuid),
    ensures
        trace(ctx, store, talk).0.member(user_uuid, org_uuid) == store.member(user_uuid, org_uuid),
{
    lemma_trace(ctx, store, talk);
}

/// Whatever the server replies, an organization that exists is neither renamed, nor given
/// another billing address, nor replaced.
pub proof fn law_no_reply_changes_an_org(
    ctx: ContextView,
    store: Store,
    talk: Seq<(ReplyView, UtcTime)>,
    uuid: Seq<char>,
)
    requires
        store.wf(),
        honest(ctx, store, talk),
        store.orgs.dom().contains(uuid),
    ensures
        lookup(trace(ctx, store, talk).0.orgs, uuid) == Some(store.orgs[uuid]),
{
    lemma_trace(ctx, store, talk);
}

/// A login that is used up stays so, whatever else is asked for and replied.
pub proof fn law_used_up_login_stays_gone(
    store: Store,
    action: ActionView,
    reply: ReplyView,
    code: Seq<char>,
)
    requires
        store.login(code) is None,
    ensures
        store.performed(action, reply).login(code) is None,
{
}

/// A user is authorized but once: the end of a login, which gives the session, goes on only
/// where the login was deleted, and from then on its code names no login. Whoever brings
/// the code again is refused, and the provider is not asked.
pub proof fn law_user_is_authorized_once(
    request: RedeemRequest<Seq<char>>,
    ctx: ContextView,
    store: Store,
    reply: ReplyView,
    clock: Clock,
    code: Seq<char>,
    code_verifier: Seq<char>,
    now: UtcTime,
)
    requires
        lookup(store.codes, code) == Some(request.state),
    ensures
        redeem_start(request) matches Step::Call(state, action) && {
            ||| state.after(ctx, reply, clock) matches Step::Done(Err(_))
            ||| {
                let gone = store.performed(action, reply);
                &&& gone.login(code) is None
                &&& login_start(code, code_verifier) matches Step::Call(finding, asked) && asked
                    == (LoginAction::FindSsoAuth { code }) && finding.after(
                    LoginReply::SsoAuth(gone.login(code)),
                    now,
                ) == LoginStep::Done(Err(SsoError::InvalidCode))
            }
        },
{
}

} // verus!
