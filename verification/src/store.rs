//! What the procedures come to: a model of the records that a server keeps, and laws on
//! what a login leaves behind in them.
//!
//! The model performs every action at once and without fail. It is for specifications
//! only.
use vstd::prelude::*;

use crate::bot::{bot_start, may_be_bot, new_bot, new_bot_membership, BotState};
use crate::clock::{Clock, UtcTime};
use crate::confirm::{confirm_start, ConfirmState};
use crate::error::SsoError;
use crate::login::SsoAuth;
use crate::organization::{
    bootstrap_of_bot, has_collection, new_collection, resolve_of_bootstrap, resolve_of_bot,
};
use crate::protocol::{
    Action, ActionView, ContextView, EventType, Mail, PolicyUse, Reply, ReplyView, Step, StepView,
};
use crate::reconcile::{
    new_membership, reconcile_of_accepted, reconcile_of_confirm, reconcile_of_new,
    reconcile_of_resolve, reconcile_start, ReconcileStep,
};
use crate::records::{Collection, Membership, MembershipStatus, Organization, SsoUser, User};
use crate::redeem::{redeem_of_reconcile, redeem_start, RedeemRequest, RedeemStep};
use crate::session::{session_outcome, SessionRequest};
use crate::text::lowercase;

verus! {

/// The records that a server keeps.
pub struct Store {
    /// The organizations, by their identifiers.
    pub orgs: Map<Seq<char>, Organization<Seq<char>>>,
    /// The users, by their email addresses.
    pub users: Map<Seq<char>, User<Seq<char>>>,
    /// The links to the provider, by the identifiers of the users.
    pub links: Map<Seq<char>, SsoUser<Seq<char>>>,
    /// The memberships, by the identifiers of the user and the organization.
    pub members: Map<(Seq<char>, Seq<char>), Membership<Seq<char>>>,
    /// The collections, by the identifiers of the organizations.
    pub collections: Map<Seq<char>, Seq<Collection<Seq<char>>>>,
    /// The logins that are under way, by their states.
    pub logins: Map<Seq<char>, SsoAuth<Seq<char>>>,
    /// The states of the logins, by the codes that name them.
    pub codes: Map<Seq<char>, Seq<char>>,
}

/// The record under the key, if there is one.
pub open spec fn lookup<K, V>(records: Map<K, V>, key: K) -> Option<V> {
    if records.dom().contains(key) {
        Some(records[key])
    } else {
        None
    }
}

impl Store {
    /// Every record stands under the key that it holds itself.
    pub open spec fn wf(self) -> bool {
        &&& forall|uuid: Seq<char>| #[trigger]
            self.orgs.dom().contains(uuid) ==> self.orgs[uuid].uuid == uuid
        &&& forall|email: Seq<char>| #[trigger]
            self.users.dom().contains(email) ==> self.users[email].email == email
        &&& forall|key: (Seq<char>, Seq<char>)| #[trigger]
            self.members.dom().contains(key) ==> (
            self.members[key].user_uuid,
            self.members[key].org_uuid,
        ) == key
    }

    /// The user's membership in the organization, if there is one.
    pub open spec fn member(self, user_uuid: Seq<char>, org_uuid: Seq<char>) -> Option<
        Membership<Seq<char>>,
    > {
        lookup(self.members, (user_uuid, org_uuid))
    }

    /// The collections of the organization.
    pub open spec fn collections_of(self, org_uuid: Seq<char>) -> Seq<Collection<Seq<char>>> {
        match lookup(self.collections, org_uuid) {
            Some(collections) => collections,
            None => Seq::empty(),
        }
    }

    /// The records with the organization.
    pub open spec fn with_org(self, org: Organization<Seq<char>>) -> Store {
        Store { orgs: self.orgs.insert(org.uuid, org), ..self }
    }

    /// The records with the user.
    pub open spec fn with_user(self, user: User<Seq<char>>) -> Store {
        Store { users: self.users.insert(user.email, user), ..self }
    }

    /// The records with the membership.
    pub open spec fn with_member(self, member: Membership<Seq<char>>) -> Store {
        Store { members: self.members.insert((member.user_uuid, member.org_uuid), member), ..self }
    }

    /// The records with the collection.
    pub open spec fn with_collection(self, collection: Collection<Seq<char>>) -> Store {
        Store {
            collections: self.collections.insert(
                collection.org_uuid,
                self.collections_of(collection.org_uuid).push(collection),
            ),
            ..self
        }
    }

    /// What becomes of the records by an action, and the reply to it. A key that is sealed
    /// becomes what `seal` makes of it.
    pub open spec fn answer(
        self,
        action: ActionView,
        seal: spec_fn(Seq<u8>, Seq<char>) -> Seq<char>,
    ) -> (Store, ReplyView) {
        match action {
            Action::FindOrganization { uuid } => (
                self,
                Reply::Organization(lookup(self.orgs, uuid)),
            ),
            Action::SaveOrganization(org) => (self.with_org(org), Reply::Done(Ok(()))),
            Action::FindUserByMail { email } => (self, Reply::User(lookup(self.users, email))),
            Action::SaveUser(user) => (self.with_user(user), Reply::Done(Ok(()))),
            Action::FindSsoUserByMail { email } => (self, Reply::SsoUser(self.link_of(email))),
            Action::SaveSsoUser(link) => (
                Store { links: self.links.insert(link.user_uuid, link), ..self },
                Reply::Done(Ok(())),
            ),
            Action::FindMembership { user_uuid, org_uuid } => (
                self,
                Reply::Membership(self.member(user_uuid, org_uuid)),
            ),
            Action::SaveMembership(member) => (self.with_member(member), Reply::Done(Ok(()))),
            Action::AcceptInvite(member) => (
                self.with_member(accepted(member)),
                Reply::Done(Ok(())),
            ),
            Action::FindCollections { org_uuid } => (
                self,
                Reply::Collections(self.collections_of(org_uuid)),
            ),
            Action::SaveCollection(collection) => (
                self.with_collection(collection),
                Reply::Done(Ok(())),
            ),
            Action::CheckPolicy { .. } => (self, Reply::Done(Ok(()))),
            Action::LogEvent { .. } => (self, Reply::Logged),
            Action::LogError { .. } => (self, Reply::Logged),
            Action::SendMail(_) => (self, Reply::Done(Ok(()))),
            Action::SealOrgKey { org_key, public_key } => (
                self,
                Reply::Sealed(Ok(seal(org_key, public_key))),
            ),
            Action::DeleteSsoAuth { state } => (self.without_login(state), Reply::Done(Ok(()))),
        }
    }

    /// The login that the code names, if it is still under way.
    pub open spec fn login(self, code: Seq<char>) -> Option<SsoAuth<Seq<char>>> {
        match lookup(self.codes, code) {
            Some(state) => lookup(self.logins, state),
            None => None,
        }
    }

    /// The records without the login.
    pub open spec fn without_login(self, state: Seq<char>) -> Store {
        Store { logins: self.logins.remove(state), ..self }
    }

    /// The link to the provider of the user with the email address.
    pub open spec fn link_of(self, email: Seq<char>) -> Option<Option<SsoUser<Seq<char>>>> {
        match lookup(self.users, email) {
            Some(user) => Some(lookup(self.links, user.uuid)),
            None => None,
        }
    }
}

/// The membership, accepted.
pub open spec fn accepted(member: Membership<Seq<char>>) -> Membership<Seq<char>> {
    Membership { status: MembershipStatus::Accepted, ..member }
}

/// The records and where the procedure stands.
pub type Position = (Store, ReconcileStep);

/// One turn: the action is performed, and the procedure goes on with the reply.
pub open spec fn turn(
    ctx: ContextView,
    now: UtcTime,
    seal: spec_fn(Seq<u8>, Seq<char>) -> Seq<char>,
    at: Position,
) -> Position {
    match at.1 {
        Step::Call(state, action) => {
            let (store, reply) = at.0.answer(action, seal);
            (store, state.after(ctx, reply, now))
        },
        Step::Done(_) => at,
    }
}

/// A number of turns.
pub open spec fn play(
    ctx: ContextView,
    now: UtcTime,
    seal: spec_fn(Seq<u8>, Seq<char>) -> Seq<char>,
    at: Position,
    turns: nat,
) -> Position
    decreases turns,
{
    if turns == 0 {
        at
    } else {
        play(ctx, now, seal, turn(ctx, now, seal, at), (turns - 1) as nat)
    }
}

/// The membership of a user, brought to where the settings want it, from the first step
/// on.
pub open spec fn run(
    ctx: ContextView,
    now: UtcTime,
    seal: spec_fn(Seq<u8>, Seq<char>) -> Seq<char>,
    store: Store,
) -> Position {
    play(ctx, now, seal, (store, reconcile_start(ctx)), 24)
}

/// What seeing to the bot comes to.
pub open spec fn bot_in(
    ctx: ContextView,
    now: UtcTime,
    store: Store,
    org_uuid: Seq<char>,
) -> (Store, Result<(), SsoError<Seq<char>>>) {
    let email = lowercase(ctx.config.sso_org_bot_email);
    if !ctx.config.sso_org_bootstrap {
        (store, Ok(()))
    } else {
        match lookup(store.users, email) {
            Some(bot) => if may_be_bot(bot, store.link_of(email)) {
                (own_in(ctx, store, bot.uuid, org_uuid), Ok(()))
            } else {
                (store, Err(SsoError::BotEmailInUse(email)))
            },
            None => {
                let bot = new_bot(ctx, email, now);
                (own_in(ctx, store.with_user(bot), bot.uuid, org_uuid), Ok(()))
            },
        }
    }
}

/// The records, with the bot as an owner of the organization.
pub open spec fn own_in(
    ctx: ContextView,
    store: Store,
    bot_uuid: Seq<char>,
    org_uuid: Seq<char>,
) -> Store {
    match store.member(bot_uuid, org_uuid) {
        Some(member) => store.with_member(member.made_owner()),
        None => store.with_member(new_bot_membership(ctx, bot_uuid, org_uuid)),
    }
}

/// The records, with the first collection of the organization.
pub open spec fn collection_in(ctx: ContextView, store: Store, org_uuid: Seq<char>) -> Store {
    if has_collection(
        store.collections_of(org_uuid),
        ctx.config.sso_org_bootstrap_collection_name,
    ) {
        store
    } else {
        store.with_collection(new_collection(ctx, org_uuid))
    }
}

/// The result of the bot, as that of the search for its organization.
pub open spec fn owned(
    org: Organization<Seq<char>>,
    result: Result<(), SsoError<Seq<char>>>,
) -> Result<Organization<Seq<char>>, SsoError<Seq<char>>> {
    match result {
        Ok(_) => Ok(org),
        Err(error) => Err(error),
    }
}

/// What the search for the organization comes to.
pub open spec fn resolve_in(ctx: ContextView, now: UtcTime, store: Store) -> (
    Store,
    Result<Organization<Seq<char>>, SsoError<Seq<char>>>,
) {
    match ctx.config.sso_default_org_id {
        None => (store, Err(SsoError::MissingDefaultOrgId)),
        Some(uuid) => match lookup(store.orgs, uuid) {
            Some(org) => {
                let (found, result) = bot_in(ctx, now, store, org.uuid);
                (found, owned(org, result))
            },
            None => if !ctx.config.sso_org_bootstrap {
                (store, Err(SsoError::DefaultOrgNotFound(uuid)))
            } else {
                match (
                    ctx.config.sso_org_bootstrap_name,
                    ctx.config.sso_org_bootstrap_billing_email,
                ) {
                    (None, _) => (store, Err(SsoError::MissingBootstrapName)),
                    (Some(_), None) => (store, Err(SsoError::MissingBootstrapBillingEmail)),
                    (Some(name), Some(billing_email)) => {
                        let org = Organization { uuid, name, billing_email };
                        let made = collection_in(ctx, store.with_org(org), uuid);
                        let (found, result) = bot_in(ctx, now, made, uuid);
                        (found, owned(org, result))
                    },
                }
            },
        },
    }
}

/// What the confirmation of a membership comes to.
pub open spec fn confirm_in(
    ctx: ContextView,
    seal: spec_fn(Seq<u8>, Seq<char>) -> Seq<char>,
    store: Store,
    org: Organization<Seq<char>>,
    member: Membership<Seq<char>>,
) -> (Store, Result<(), SsoError<Seq<char>>>) {
    match confirm_start(ctx, org, member) {
        Step::Call(_, Action::SealOrgKey { org_key, public_key }) => (
            store.with_member(member.confirmed_with(seal(org_key, public_key))),
            Ok(()),
        ),
        Step::Call(_, _) => (store, Err(SsoError::UnexpectedReply)),
        Step::Done(result) => (store, result),
    }
}

/// What becomes of a user's membership in the organization. Only the confirmation of a
/// membership that was accepted before can fail.
pub open spec fn membership_in(
    ctx: ContextView,
    seal: spec_fn(Seq<u8>, Seq<char>) -> Seq<char>,
    store: Store,
    org: Organization<Seq<char>>,
) -> (Store, Result<(), SsoError<Seq<char>>>) {
    match store.member(ctx.user.uuid, org.uuid) {
        Some(member) => match member.status {
            MembershipStatus::Accepted => confirm_in(ctx, seal, store, org, member),
            MembershipStatus::Invited => if ctx.config.sso_org_invite_auto_accept {
                let joined = accepted(member);
                (confirm_in(ctx, seal, store.with_member(joined), org, joined).0, Ok(()))
            } else {
                (store, Ok(()))
            },
            _ => (store, Ok(())),
        },
        None => if ctx.config.sso_org_auto_provision {
            let joined = new_membership(ctx, org);
            (confirm_in(ctx, seal, store.with_member(joined), org, joined).0, Ok(()))
        } else {
            (store, Ok(()))
        },
    }
}

/// What the whole procedure comes to.
pub open spec fn reconcile_in(
    ctx: ContextView,
    now: UtcTime,
    seal: spec_fn(Seq<u8>, Seq<char>) -> Seq<char>,
    store: Store,
) -> (Store, Result<(), SsoError<Seq<char>>>) {
    if !ctx.config.wants_org() {
        (store, Ok(()))
    } else {
        let (resolved, result) = resolve_in(ctx, now, store);
        match result {
            Ok(org) => membership_in(ctx, seal, resolved, org),
            Err(error) => (resolved, Err(error)),
        }
    }
}

/// The step of the procedure, given that of the bot of an organization that was found
/// or, where `made`, of one that is new.
spec fn on_bot(
    ctx: ContextView,
    made: bool,
    org: Organization<Seq<char>>,
    step: StepView<BotState<Seq<char>>, ()>,
) -> ReconcileStep {
    if made {
        reconcile_of_resolve(ctx, resolve_of_bootstrap(bootstrap_of_bot(org, step)))
    } else {
        reconcile_of_resolve(ctx, resolve_of_bot(org, step))
    }
}

/// The records and where seeing to the bot stands.
pub type BotPosition = (Store, StepView<BotState<Seq<char>>, ()>);

/// One turn of seeing to the bot by itself: the action is performed, and it goes on with
/// the reply.
pub open spec fn bot_turn(
    ctx: ContextView,
    now: UtcTime,
    seal: spec_fn(Seq<u8>, Seq<char>) -> Seq<char>,
    at: BotPosition,
) -> BotPosition {
    match at.1 {
        Step::Call(state, action) => {
            let (store, reply) = at.0.answer(action, seal);
            (store, state.after(ctx, reply, now))
        },
        Step::Done(_) => at,
    }
}

/// A number of turns of seeing to the bot.
pub open spec fn bot_play(
    ctx: ContextView,
    now: UtcTime,
    seal: spec_fn(Seq<u8>, Seq<char>) -> Seq<char>,
    at: BotPosition,
    turns: nat,
) -> BotPosition
    decreases turns,
{
    if turns == 0 {
        at
    } else {
        bot_play(ctx, now, seal, bot_turn(ctx, now, seal, at), (turns - 1) as nat)
    }
}

/// What is asked for in a number of turns of seeing to the bot.
pub open spec fn bot_asks(
    ctx: ContextView,
    now: UtcTime,
    seal: spec_fn(Seq<u8>, Seq<char>) -> Seq<char>,
    at: BotPosition,
    turns: nat,
) -> Seq<ActionView>
    decreases turns,
{
    if turns == 0 {
        Seq::empty()
    } else {
        match at.1 {
            Step::Call(_, action) => seq![action] + bot_asks(
                ctx,
                now,
                seal,
                bot_turn(ctx, now, seal, at),
                (turns - 1) as nat,
            ),
            Step::Done(_) => Seq::empty(),
        }
    }
}

/// Seeing to the bot of the organization, from the first step on.
pub open spec fn bot_run(
    ctx: ContextView,
    now: UtcTime,
    seal: spec_fn(Seq<u8>, Seq<char>) -> Seq<char>,
    store: Store,
    org_uuid: Seq<char>,
) -> BotPosition {
    bot_play(ctx, now, seal, (store, bot_start(ctx, org_uuid)), 4)
}

/// Seeing to the bot ends, and leaves behind what it is meant to.
pub proof fn law_bot_is_seen_to(
    ctx: ContextView,
    now: UtcTime,
    seal: spec_fn(Seq<u8>, Seq<char>) -> Seq<char>,
    store: Store,
    org_uuid: Seq<char>,
)
    requires
        store.wf(),
    ensures
        bot_run(ctx, now, seal, store, org_uuid) == (
            bot_in(ctx, now, store, org_uuid).0,
            StepView::<BotState<Seq<char>>, ()>::Done(bot_in(ctx, now, store, org_uuid).1),
        ),
{
    reveal_with_fuel(bot_play, 5);
    let email = lowercase(ctx.config.sso_org_bot_email);
    if ctx.config.sso_org_bootstrap {
        let (known, bot_uuid) = match lookup(store.users, email) {
            Some(bot) => (store, bot.uuid),
            None => (store.with_user(new_bot(ctx, email, now)), new_bot(ctx, email, now).uuid),
        };
        let at = (store, bot_start(ctx, org_uuid));
        let once = bot_turn(ctx, now, seal, at);
        let twice = bot_turn(ctx, now, seal, once);
        let thrice = bot_turn(ctx, now, seal, twice);
        assert(bot_run(ctx, now, seal, store, org_uuid) == bot_turn(ctx, now, seal, thrice));
        let found = known.member(bot_uuid, org_uuid);
        if found is Some && found->0 == found->0.made_owner() {
            assert(known.with_member(found->0).members =~= known.members);
        }
    }
}

/// Where a confirmation stands in the procedure.
enum Way {
    Before,
    Accepted,
    New,
}

/// The step of the procedure, given that of a confirmation.
spec fn on_confirm(
    ctx: ContextView,
    way: Way,
    org: Organization<Seq<char>>,
    step: StepView<ConfirmState<Seq<char>>, ()>,
) -> ReconcileStep {
    match way {
        Way::Before => reconcile_of_confirm(step),
        Way::Accepted => reconcile_of_accepted(ctx, org, step),
        Way::New => reconcile_of_new(ctx, step),
    }
}

/// Turns add up.
proof fn lemma_play_adds(
    ctx: ContextView,
    now: UtcTime,
    seal: spec_fn(Seq<u8>, Seq<char>) -> Seq<char>,
    at: Position,
    first: nat,
    then: nat,
)
    ensures
        play(ctx, now, seal, at, first + then) == play(
            ctx,
            now,
            seal,
            play(ctx, now, seal, at, first),
            then,
        ),
    decreases first,
{
    if first > 0 {
        lemma_play_adds(ctx, now, seal, turn(ctx, now, seal, at), (first - 1) as nat, then);
    }
}

/// The last of some turns comes after the others.
proof fn lemma_play_next(
    ctx: ContextView,
    now: UtcTime,
    seal: spec_fn(Seq<u8>, Seq<char>) -> Seq<char>,
    at: Position,
    turns: nat,
)
    ensures
        play(ctx, now, seal, at, turns + 1) == turn(
            ctx,
            now,
            seal,
            play(ctx, now, seal, at, turns),
        ),
{
    lemma_play_adds(ctx, now, seal, at, turns, 1);
    reveal_with_fuel(play, 2);
}

/// Where the procedure has ended, it stays.
proof fn lemma_play_stays(
    ctx: ContextView,
    now: UtcTime,
    seal: spec_fn(Seq<u8>, Seq<char>) -> Seq<char>,
    at: Position,
    turns: nat,
)
    requires
        at.1 is Done,
    ensures
        play(ctx, now, seal, at, turns) == at,
    decreases turns,
{
    if turns > 0 {
        lemma_play_stays(ctx, now, seal, at, (turns - 1) as nat);
    }
}

/// A reply to the bot's action is a reply to the procedure's.
proof fn lemma_bot_turn(
    ctx: ContextView,
    now: UtcTime,
    seal: spec_fn(Seq<u8>, Seq<char>) -> Seq<char>,
    made: bool,
    org: Organization<Seq<char>>,
    store: Store,
    state: BotState<Seq<char>>,
    action: ActionView,
)
    ensures
        turn(ctx, now, seal, (store, on_bot(ctx, made, org, Step::Call(state, action)))) == (
            store.answer(action, seal).0,
            on_bot(ctx, made, org, state.after(ctx, store.answer(action, seal).1, now)),
        ),
{
}

/// The bot is seen to in four turns at most.
proof fn lemma_bot(
    ctx: ContextView,
    now: UtcTime,
    seal: spec_fn(Seq<u8>, Seq<char>) -> Seq<char>,
    made: bool,
    org: Organization<Seq<char>>,
    store: Store,
) -> (turns: nat)
    requires
        store.wf(),
    ensures
        turns <= 4,
        play(
            ctx,
            now,
            seal,
            (store, on_bot(ctx, made, org, bot_start(ctx, org.uuid))),
            turns,
        ) == (
            bot_in(ctx, now, store, org.uuid).0,
            on_bot(ctx, made, org, Step::Done(bot_in(ctx, now, store, org.uuid).1)),
        ),
{
    let at = (store, on_bot(ctx, made, org, bot_start(ctx, org.uuid)));
    let email = lowercase(ctx.config.sso_org_bot_email);
    if !ctx.config.sso_org_bootstrap {
        0
    } else {
        let find = BotState::FindingUser { org_uuid: org.uuid, email };
        lemma_bot_turn(ctx, now, seal, made, org, store, find, Action::FindUserByMail { email });
        lemma_play_next(ctx, now, seal, at, 0);
        let (known, bot_uuid, state, action) = match lookup(store.users, email) {
            Some(bot) => (
                store,
                bot.uuid,
                BotState::CheckingLink { org_uuid: org.uuid, email, bot },
                ActionView::FindSsoUserByMail { email },
            ),
            None => (
                store.with_user(new_bot(ctx, email, now)),
                new_bot(ctx, email, now).uuid,
                BotState::SavingUser {
                    org_uuid: org.uuid,
                    bot_uuid: new_bot(ctx, email, now).uuid,
                },
                ActionView::SaveUser(new_bot(ctx, email, now)),
            ),
        };
        lemma_bot_turn(ctx, now, seal, made, org, store, state, action);
        lemma_play_next(ctx, now, seal, at, 1);
        if store.users.dom().contains(email) && !may_be_bot(
            store.users[email],
            store.link_of(email),
        ) {
            2
        } else {
            let seek = BotState::FindingMembership { org_uuid: org.uuid, bot_uuid };
            let sought = ActionView::FindMembership { user_uuid: bot_uuid, org_uuid: org.uuid };
            assert(play(ctx, now, seal, at, 2) == (
                known,
                on_bot(ctx, made, org, Step::Call(seek, sought)),
            ));
            lemma_bot_turn(ctx, now, seal, made, org, known, seek, sought);
            lemma_play_next(ctx, now, seal, at, 2);
            let found = known.member(bot_uuid, org.uuid);
            if found is Some && found->0 == found->0.made_owner() {
                let member = found->0;
                assert(known.members.insert((member.user_uuid, member.org_uuid), member)
                    =~= known.members);
                3
            } else {
                let saved = match found {
                    Some(member) => member.made_owner(),
                    None => new_bot_membership(ctx, bot_uuid, org.uuid),
                };
                lemma_bot_turn(
                    ctx,
                    now,
                    seal,
                    made,
                    org,
                    known,
                    BotState::SavingMembership,
                    Action::SaveMembership(saved),
                );
                lemma_play_next(ctx, now, seal, at, 3);
                4
            }
        }
    }
}

/// The organization is found or made in eight turns at most.
proof fn lemma_resolve(
    ctx: ContextView,
    now: UtcTime,
    seal: spec_fn(Seq<u8>, Seq<char>) -> Seq<char>,
    store: Store,
) -> (turns: nat)
    requires
        store.wf(),
        ctx.config.wants_org(),
    ensures
        turns <= 8,
        play(ctx, now, seal, (store, reconcile_start(ctx)), turns) == (
            resolve_in(ctx, now, store).0,
            reconcile_of_resolve(ctx, Step::Done(resolve_in(ctx, now, store).1)),
        ),
{
    let at = (store, reconcile_start(ctx));
    match ctx.config.sso_default_org_id {
        None => 0,
        Some(uuid) => {
            lemma_play_next(ctx, now, seal, at, 0);
            match lookup(store.orgs, uuid) {
                Some(org) => {
                    let more = lemma_bot(ctx, now, seal, false, org, store);
                    lemma_play_adds(ctx, now, seal, at, 1, more);
                    1 + more
                },
                None => if ctx.config.sso_org_bootstrap && ctx.config.sso_org_bootstrap_name is Some
                    && ctx.config.sso_org_bootstrap_billing_email is Some {
                    let org = Organization {
                        uuid,
                        name: ctx.config.sso_org_bootstrap_name->0,
                        billing_email: ctx.config.sso_org_bootstrap_billing_email->0,
                    };
                    let saved = store.with_org(org);
                    let made = collection_in(ctx, saved, uuid);
                    lemma_play_next(ctx, now, seal, at, 1);
                    lemma_play_next(ctx, now, seal, at, 2);
                    let collected: nat = if has_collection(
                        saved.collections_of(uuid),
                        ctx.config.sso_org_bootstrap_collection_name,
                    ) {
                        3
                    } else {
                        lemma_play_next(ctx, now, seal, at, 3);
                        4
                    };
                    assert(play(ctx, now, seal, at, collected) == (
                        made,
                        on_bot(ctx, true, org, bot_start(ctx, uuid)),
                    ));
                    assert(made.wf());
                    let more = lemma_bot(ctx, now, seal, true, org, made);
                    lemma_play_adds(ctx, now, seal, at, collected, more);
                    collected + more
                } else {
                    1
                },
            }
        },
    }
}

/// A reply to the confirmation's action is a reply to the procedure's.
proof fn lemma_confirm_turn(
    ctx: ContextView,
    now: UtcTime,
    seal: spec_fn(Seq<u8>, Seq<char>) -> Seq<char>,
    way: Way,
    org: Organization<Seq<char>>,
    store: Store,
    state: ConfirmState<Seq<char>>,
    action: ActionView,
)
    ensures
        turn(ctx, now, seal, (store, on_confirm(ctx, way, org, Step::Call(state, action)))) == (
            store.answer(action, seal).0,
            on_confirm(ctx, way, org, state.after(ctx, store.answer(action, seal).1)),
        ),
{
}

/// A membership is confirmed in five turns at most.
proof fn lemma_confirm(
    ctx: ContextView,
    now: UtcTime,
    seal: spec_fn(Seq<u8>, Seq<char>) -> Seq<char>,
    way: Way,
    org: Organization<Seq<char>>,
    store: Store,
    member: Membership<Seq<char>>,
) -> (turns: nat)
    ensures
        turns <= 5,
        play(
            ctx,
            now,
            seal,
            (store, on_confirm(ctx, way, org, confirm_start(ctx, org, member))),
            turns,
        ) == (
            confirm_in(ctx, seal, store, org, member).0,
            on_confirm(ctx, way, org, Step::Done(confirm_in(ctx, seal, store, org, member).1)),
        ),
{
    let start = confirm_start(ctx, org, member);
    let at = (store, on_confirm(ctx, way, org, start));
    match start {
        Step::Call(sealing, Action::SealOrgKey { org_key, public_key }) => {
            let confirmed = member.confirmed_with(seal(org_key, public_key));
            let action = Action::SealOrgKey { org_key, public_key };
            lemma_confirm_turn(ctx, now, seal, way, org, store, sealing, action);
            lemma_play_next(ctx, now, seal, at, 0);
            lemma_confirm_turn(
                ctx,
                now,
                seal,
                way,
                org,
                store,
                ConfirmState::CheckingPolicy { org, member: confirmed },
                Action::CheckPolicy { member: confirmed, policy_use: PolicyUse::Confirm },
            );
            lemma_play_next(ctx, now, seal, at, 1);
            lemma_confirm_turn(
                ctx,
                now,
                seal,
                way,
                org,
                store,
                ConfirmState::Logging { org, member: confirmed },
                ctx.event(EventType::OrganizationUserConfirmed, confirmed.uuid, org.uuid),
            );
            lemma_play_next(ctx, now, seal, at, 2);
            let told: nat = if ctx.config.mail_enabled {
                lemma_confirm_turn(
                    ctx,
                    now,
                    seal,
                    way,
                    org,
                    store,
                    ConfirmState::Mailing { member: confirmed },
                    Action::SendMail(
                        Mail::InviteConfirmed { email: ctx.user.email, org_name: org.name },
                    ),
                );
                lemma_play_next(ctx, now, seal, at, 3);
                4
            } else {
                3
            };
            lemma_confirm_turn(
                ctx,
                now,
                seal,
                way,
                org,
                store,
                ConfirmState::Saving,
                Action::SaveMembership(confirmed),
            );
            lemma_play_next(ctx, now, seal, at, told);
            told + 1
        },
        _ => 0,
    }
}

/// The membership of a user, from when the organization is known, is where it should be
/// in ten turns at most.
proof fn lemma_membership(
    ctx: ContextView,
    now: UtcTime,
    seal: spec_fn(Seq<u8>, Seq<char>) -> Seq<char>,
    org: Organization<Seq<char>>,
    store: Store,
) -> (turns: nat)
    requires
        store.wf(),
    ensures
        turns <= 10,
        play(
            ctx,
            now,
            seal,
            (store, reconcile_of_resolve(ctx, Step::Done(Ok(org)))),
            turns,
        ) == (
            membership_in(ctx, seal, store, org).0,
            ReconcileStep::Done(membership_in(ctx, seal, store, org).1),
        ),
{
    let at = (store, reconcile_of_resolve(ctx, Step::Done(Ok(org))));
    lemma_play_next(ctx, now, seal, at, 0);
    match store.member(ctx.user.uuid, org.uuid) {
        Some(member) => match member.status {
            MembershipStatus::Accepted => {
                let more = lemma_confirm(ctx, now, seal, Way::Before, org, store, member);
                lemma_play_adds(ctx, now, seal, at, 1, more);
                1 + more
            },
            MembershipStatus::Invited => if ctx.config.sso_org_invite_auto_accept {
                let joined = accepted(member);
                let known = store.with_member(joined);
                lemma_play_next(ctx, now, seal, at, 1);
                lemma_play_next(ctx, now, seal, at, 2);
                assert(known.member(ctx.user.uuid, org.uuid) == Some(joined));
                let more = lemma_confirm(ctx, now, seal, Way::Accepted, org, known, joined);
                lemma_play_adds(ctx, now, seal, at, 3, more);
                if confirm_in(ctx, seal, known, org, joined).1 is Err {
                    lemma_play_next(ctx, now, seal, at, 3 + more);
                    3 + more + 1
                } else if ctx.config.mail_enabled && !ctx.config.sso_org_auto_confirm {
                    lemma_play_next(ctx, now, seal, at, 3 + more);
                    3 + more + 1
                } else {
                    3 + more
                }
            } else {
                1
            },
            _ => 1,
        },
        None => if ctx.config.sso_org_auto_provision {
            let joined = new_membership(ctx, org);
            let known = store.with_member(joined);
            lemma_play_next(ctx, now, seal, at, 1);
            lemma_play_next(ctx, now, seal, at, 2);
            lemma_play_next(ctx, now, seal, at, 3);
            if ctx.config.sso_org_auto_confirm {
                let more = lemma_confirm(ctx, now, seal, Way::New, org, known, joined);
                lemma_play_adds(ctx, now, seal, at, 4, more);
                if confirm_in(ctx, seal, known, org, joined).1 is Err {
                    lemma_play_next(ctx, now, seal, at, 4 + more);
                    4 + more + 1
                } else {
                    4 + more
                }
            } else if ctx.config.mail_enabled {
                lemma_play_next(ctx, now, seal, at, 4);
                5
            } else {
                4
            }
        } else {
            1
        },
    }
}

/// The procedure ends, and leaves behind what it is meant to.
pub proof fn law_reconciled(
    ctx: ContextView,
    now: UtcTime,
    seal: spec_fn(Seq<u8>, Seq<char>) -> Seq<char>,
    store: Store,
)
    requires
        store.wf(),
    ensures
        run(ctx, now, seal, store) == (
            reconcile_in(ctx, now, seal, store).0,
            ReconcileStep::Done(reconcile_in(ctx, now, seal, store).1),
        ),
{
    let at = (store, reconcile_start(ctx));
    if !ctx.config.wants_org() {
        lemma_play_stays(ctx, now, seal, at, 24);
    } else {
        let first = lemma_resolve(ctx, now, seal, store);
        let (resolved, result) = resolve_in(ctx, now, store);
        let turns: nat = match result {
            Ok(org) => {
                lemma_resolve_keeps_wf(ctx, now, store);
                let more = lemma_membership(ctx, now, seal, org, resolved);
                lemma_play_adds(ctx, now, seal, at, first, more);
                first + more
            },
            Err(_) => first,
        };
        lemma_play_adds(ctx, now, seal, at, turns, (24 - turns) as nat);
        lemma_play_stays(ctx, now, seal, play(ctx, now, seal, at, turns), (24 - turns) as nat);
    }
}

/// The search for the organization leaves every record under its key.
pub(crate) proof fn lemma_resolve_keeps_wf(ctx: ContextView, now: UtcTime, store: Store)
    requires
        store.wf(),
    ensures
        resolve_in(ctx, now, store).0.wf(),
{
}

/// The records and where the end of a login stands.
pub type RedeemPosition = (Store, RedeemStep);

/// One turn of the end of a login.
pub open spec fn redeem_turn(
    ctx: ContextView,
    clock: Clock,
    seal: spec_fn(Seq<u8>, Seq<char>) -> Seq<char>,
    at: RedeemPosition,
) -> RedeemPosition {
    match at.1 {
        Step::Call(state, action) => {
            let (store, reply) = at.0.answer(action, seal);
            (store, state.after(ctx, reply, clock))
        },
        Step::Done(_) => at,
    }
}

/// A number of turns of the end of a login.
pub open spec fn redeem_play(
    ctx: ContextView,
    clock: Clock,
    seal: spec_fn(Seq<u8>, Seq<char>) -> Seq<char>,
    at: RedeemPosition,
    turns: nat,
) -> RedeemPosition
    decreases turns,
{
    if turns == 0 {
        at
    } else {
        redeem_play(ctx, clock, seal, redeem_turn(ctx, clock, seal, at), (turns - 1) as nat)
    }
}

/// The end of a login, from the first step on.
pub open spec fn redeem_run(
    ctx: ContextView,
    clock: Clock,
    seal: spec_fn(Seq<u8>, Seq<char>) -> Seq<char>,
    store: Store,
    request: RedeemRequest<Seq<char>>,
) -> RedeemPosition {
    redeem_play(ctx, clock, seal, (store, redeem_start(request)), 26)
}

/// The turns of the membership are turns of the end of a login.
proof fn lemma_redeem_play(
    ctx: ContextView,
    clock: Clock,
    seal: spec_fn(Seq<u8>, Seq<char>) -> Seq<char>,
    session: SessionRequest<Seq<char>>,
    at: Position,
    turns: nat,
)
    ensures
        redeem_play(
            ctx,
            clock,
            seal,
            (at.0, redeem_of_reconcile(ctx, session, at.1, clock)),
            turns,
        ) == (
            play(ctx, clock.utc, seal, at, turns).0,
            redeem_of_reconcile(ctx, session, play(ctx, clock.utc, seal, at, turns).1, clock),
        ),
    decreases turns,
{
    if turns > 0 {
        let next = turn(ctx, clock.utc, seal, at);
        assert(redeem_turn(ctx, clock, seal, (at.0, redeem_of_reconcile(ctx, session, at.1, clock)))
            == (next.0, redeem_of_reconcile(ctx, session, next.1, clock)));
        lemma_redeem_play(ctx, clock, seal, session, next, (turns - 1) as nat);
    }
}

/// What the end of a login leaves behind. The login is gone. The user is linked to the
/// provider, as the login has brought it where there was no link, and as before where there
/// was. The membership is where reconciling it by itself brings it, for every user. And the
/// session begins where that ends well, and the login fails where it fails.
pub proof fn law_redeemed(
    ctx: ContextView,
    clock: Clock,
    seal: spec_fn(Seq<u8>, Seq<char>) -> Seq<char>,
    store: Store,
    request: RedeemRequest<Seq<char>>,
)
    requires
        store.wf(),
    ensures
        ({
            let linked = Store {
                orgs: store.orgs,
                users: store.users,
                links: if request.sso_user is None {
                    store.links.insert(
                        ctx.user.uuid,
                        SsoUser { user_uuid: ctx.user.uuid, identifier: request.identifier },
                    )
                } else {
                    store.links
                },
                members: store.members,
                collections: store.collections,
                logins: store.logins.remove(request.state),
                codes: store.codes,
            };
            let (after, step) = redeem_run(ctx, clock, seal, store, request);
            let (reconciled, ended) = run(ctx, clock.utc, seal, linked);
            &&& after == reconciled
            &&& match ended {
                Step::Done(Ok(_)) => step == RedeemStep::Done(
                    session_outcome(ctx.config, ctx.device, ctx.user, request.session, clock),
                ),
                Step::Done(Err(error)) => step == RedeemStep::Done(Err(error)),
                Step::Call(..) => false,
            }
        }),
{
    let session = request.session;
    let at = (store, redeem_start(request));
    let once = redeem_turn(ctx, clock, seal, at);
    let gone = store.without_login(request.state);
    assert(redeem_run(ctx, clock, seal, store, request) == redeem_play(ctx, clock, seal, once, 25));
    let (linked, more): (Store, nat) = if request.sso_user is None {
        (
            Store {
                links: gone.links.insert(
                    ctx.user.uuid,
                    SsoUser { user_uuid: ctx.user.uuid, identifier: request.identifier },
                ),
                ..gone
            },
            24,
        )
    } else {
        (gone, 25)
    };
    let twice = redeem_turn(ctx, clock, seal, once);
    assert(redeem_play(ctx, clock, seal, once, 25) == redeem_play(ctx, clock, seal, twice, 24));
    let start = (linked, reconcile_start(ctx));
    lemma_redeem_play(ctx, clock, seal, session, start, more);
    law_reconciled(ctx, clock.utc, seal, linked);
    let end = run(ctx, clock.utc, seal, linked);
    lemma_play_adds(ctx, clock.utc, seal, start, 24, 1);
    lemma_play_stays(ctx, clock.utc, seal, end, 1);
}

} // verus!
