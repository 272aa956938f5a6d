//! The organization that users of the provider belong to: found, or made where it is
//! missing.
use vstd::prelude::*;

use crate::bot::{bot_start, ensure_sso_org_bot_membership, BotState};
use crate::clock::UtcTime;
use crate::error::SsoError;
use crate::protocol::{Action, Context, ContextView, Reply, ReplyView, Step, StepView};
use crate::records::{Collection, Organization};
use crate::text::same_text;

verus! {

/// How far the first collection has come.
#[derive(Debug, PartialEq, Eq)]
pub enum CollectionState<S = String> {
    /// The collections of the organization are looked up.
    Finding { org_uuid: S },
    /// The collection is made.
    Saving,
}

/// How far a new organization has come.
#[derive(Debug, PartialEq, Eq)]
pub enum BootstrapState<S = String> {
    /// The organization is made.
    Saving { org: Organization<S> },
    /// Its first collection is seen to.
    Collection { org: Organization<S>, collection: CollectionState<S> },
    /// Its owner is seen to.
    Bot { org: Organization<S>, bot: BotState<S> },
}

/// How far the search for the organization has come.
#[derive(Debug, PartialEq, Eq)]
pub enum ResolveState<S = String> {
    /// The organization is looked up.
    Finding { org_uuid: S },
    /// It exists; its owner is seen to.
    Bot { org: Organization<S>, bot: BotState<S> },
    /// It does not; it is made.
    Bootstrap(BootstrapState<S>),
}

impl View for CollectionState<String> {
    type V = CollectionState<Seq<char>>;

    open spec fn view(&self) -> CollectionState<Seq<char>> {
        match self {
            CollectionState::Finding { org_uuid } => CollectionState::Finding {
                org_uuid: org_uuid@,
            },
            CollectionState::Saving => CollectionState::Saving,
        }
    }
}

impl View for BootstrapState<String> {
    type V = BootstrapState<Seq<char>>;

    open spec fn view(&self) -> BootstrapState<Seq<char>> {
        match self {
            BootstrapState::Saving { org } => BootstrapState::Saving { org: org@ },
            BootstrapState::Collection { org, collection } => BootstrapState::Collection {
                org: org@,
                collection: collection@,
            },
            BootstrapState::Bot { org, bot } => BootstrapState::Bot { org: org@, bot: bot@ },
        }
    }
}

impl View for ResolveState<String> {
    type V = ResolveState<Seq<char>>;

    open spec fn view(&self) -> ResolveState<Seq<char>> {
        match self {
            ResolveState::Finding { org_uuid } => ResolveState::Finding { org_uuid: org_uuid@ },
            ResolveState::Bot { org, bot } => ResolveState::Bot { org: org@, bot: bot@ },
            ResolveState::Bootstrap(state) => ResolveState::Bootstrap(state@),
        }
    }
}

/// One of the collections has the name.
pub open spec fn has_collection(
    collections: Seq<Collection<Seq<char>>>,
    name: Seq<char>,
) -> bool {
    exists|i: int| 0 <= i < collections.len() && #[trigger] collections[i].name == name
}

/// The collection that is made for a new organization.
pub open spec fn new_collection(ctx: ContextView, org_uuid: Seq<char>) -> Collection<Seq<char>> {
    Collection {
        uuid: ctx.fresh.collection,
        org_uuid,
        name: ctx.config.sso_org_bootstrap_collection_name,
    }
}

/// The first step towards the collection: those that there are, are looked up.
pub open spec fn collection_start(org_uuid: Seq<char>) -> StepView<
    CollectionState<Seq<char>>,
    (),
> {
    Step::Call(CollectionState::Finding { org_uuid }, Action::FindCollections { org_uuid })
}

impl CollectionState<Seq<char>> {
    /// The step that follows a reply.
    pub open spec fn after(self, ctx: ContextView, reply: ReplyView) -> StepView<
        CollectionState<Seq<char>>,
        (),
    > {
        match (self, reply) {
            (CollectionState::Finding { org_uuid }, Reply::Collections(collections)) => {
                if has_collection(collections, ctx.config.sso_org_bootstrap_collection_name) {
                    Step::Done(Ok(()))
                } else {
                    Step::Call(
                        CollectionState::Saving,
                        Action::SaveCollection(new_collection(ctx, org_uuid)),
                    )
                }
            },
            (CollectionState::Saving, Reply::Done(result)) => Step::Done(result),
            _ => Step::Done(Err(SsoError::UnexpectedReply)),
        }
    }
}

/// The step of a new organization, given that of its owner.
pub open spec fn bootstrap_of_bot(
    org: Organization<Seq<char>>,
    step: StepView<BotState<Seq<char>>, ()>,
) -> StepView<BootstrapState<Seq<char>>, Organization<Seq<char>>> {
    match step {
        Step::Call(bot, action) => Step::Call(BootstrapState::Bot { org, bot }, action),
        Step::Done(Ok(_)) => Step::Done(Ok(org)),
        Step::Done(Err(error)) => Step::Done(Err(error)),
    }
}

/// The step of a new organization, given that of its first collection.
pub open spec fn bootstrap_of_collection(
    ctx: ContextView,
    org: Organization<Seq<char>>,
    step: StepView<CollectionState<Seq<char>>, ()>,
) -> StepView<BootstrapState<Seq<char>>, Organization<Seq<char>>> {
    match step {
        Step::Call(collection, action) => Step::Call(
            BootstrapState::Collection { org, collection },
            action,
        ),
        Step::Done(Ok(_)) => bootstrap_of_bot(org, bot_start(ctx, org.uuid)),
        Step::Done(Err(error)) => Step::Done(Err(error)),
    }
}

/// The first step towards a new organization: it is made, as it is configured.
pub open spec fn bootstrap_start(ctx: ContextView, org_uuid: Seq<char>) -> StepView<
    BootstrapState<Seq<char>>,
    Organization<Seq<char>>,
> {
    match (ctx.config.sso_org_bootstrap_name, ctx.config.sso_org_bootstrap_billing_email) {
        (None, _) => Step::Done(Err(SsoError::MissingBootstrapName)),
        (Some(_), None) => Step::Done(Err(SsoError::MissingBootstrapBillingEmail)),
        (Some(name), Some(billing_email)) => {
            let org = Organization { uuid: org_uuid, name, billing_email };
            Step::Call(BootstrapState::Saving { org }, Action::SaveOrganization(org))
        },
    }
}

impl BootstrapState<Seq<char>> {
    /// The step that follows a reply.
    pub open spec fn after(self, ctx: ContextView, reply: ReplyView, now: UtcTime) -> StepView<
        BootstrapState<Seq<char>>,
        Organization<Seq<char>>,
    > {
        match self {
            BootstrapState::Saving { org } => match reply {
                Reply::Done(Ok(_)) => bootstrap_of_collection(
                    ctx,
                    org,
                    collection_start(org.uuid),
                ),
                Reply::Done(Err(error)) => Step::Done(Err(error)),
                _ => Step::Done(Err(SsoError::UnexpectedReply)),
            },
            BootstrapState::Collection { org, collection } => bootstrap_of_collection(
                ctx,
                org,
                collection.after(ctx, reply),
            ),
            BootstrapState::Bot { org, bot } => bootstrap_of_bot(org, bot.after(ctx, reply, now),
            ),
        }
    }
}

/// The step of the search, given that of the owner of an organization that was found.
pub open spec fn resolve_of_bot(
    org: Organization<Seq<char>>,
    step: StepView<BotState<Seq<char>>, ()>,
) -> StepView<ResolveState<Seq<char>>, Organization<Seq<char>>> {
    match step {
        Step::Call(bot, action) => Step::Call(ResolveState::Bot { org, bot }, action),
        Step::Done(Ok(_)) => Step::Done(Ok(org)),
        Step::Done(Err(error)) => Step::Done(Err(error)),
    }
}

/// The step of the search, given that of a new organization.
pub open spec fn resolve_of_bootstrap(
    step: StepView<BootstrapState<Seq<char>>, Organization<Seq<char>>>,
) -> StepView<ResolveState<Seq<char>>, Organization<Seq<char>>> {
    match step {
        Step::Call(state, action) => Step::Call(ResolveState::Bootstrap(state), action),
        Step::Done(result) => Step::Done(result),
    }
}

/// The first step of the search: the configured organization is looked up.
pub open spec fn resolve_start(ctx: ContextView) -> StepView<
    ResolveState<Seq<char>>,
    Organization<Seq<char>>,
> {
    match ctx.config.sso_default_org_id {
        Some(org_uuid) => Step::Call(
            ResolveState::Finding { org_uuid },
            Action::FindOrganization { uuid: org_uuid },
        ),
        None => Step::Done(Err(SsoError::MissingDefaultOrgId)),
    }
}

impl ResolveState<Seq<char>> {
    /// The step that follows a reply.
    pub open spec fn after(self, ctx: ContextView, reply: ReplyView, now: UtcTime) -> StepView<
        ResolveState<Seq<char>>,
        Organization<Seq<char>>,
    > {
        match self {
            ResolveState::Finding { org_uuid } => match reply {
                Reply::Organization(Some(org)) => resolve_of_bot(org, bot_start(ctx, org.uuid)),
                Reply::Organization(None) => if ctx.config.sso_org_bootstrap {
                    resolve_of_bootstrap(bootstrap_start(ctx, org_uuid))
                } else {
                    Step::Done(Err(SsoError::DefaultOrgNotFound(org_uuid)))
                },
                _ => Step::Done(Err(SsoError::UnexpectedReply)),
            },
            ResolveState::Bot { org, bot } => resolve_of_bot(org, bot.after(ctx, reply, now)),
            ResolveState::Bootstrap(state) => resolve_of_bootstrap(state.after(ctx, reply, now)),
        }
    }
}

/// Whether one of the collections has the name.
fn names_collection(collections: &Vec<Collection>, name: &String) -> (named: bool)
    ensures
        named == has_collection(collections.deep_view(), name@),
{
    let ghost views = collections.deep_view();
    for i in 0..collections.len()
        invariant
            views == collections.deep_view(),
            forall|j: int| 0 <= j < i ==> #[trigger] views[j].name != name@,
    {
        if same_text(&collections[i].name, name) {
            assert(views[i as int].name == name@);
            return true;
        }
        assert(views[i as int].name != name@);
    }
    false
}

/// Sees to it that the organization has its first collection: the first step.
pub fn ensure_sso_org_bootstrap_collection(org_uuid: &String) -> (step: Step<
    CollectionState,
    Action,
    (),
>)
    ensures
        step@ == collection_start(org_uuid@),
{
    Step::Call(
        CollectionState::Finding { org_uuid: org_uuid.clone() },
        Action::FindCollections { org_uuid: org_uuid.clone() },
    )
}

impl CollectionState<String> {
    /// The step that follows a reply.
    pub fn advance(self, ctx: &Context, reply: Reply) -> (step: Step<CollectionState, Action, ()>)
        ensures
            step@ == self@.after(ctx@, reply@),
    {
        let name = &ctx.config.sso_org_bootstrap_collection_name;
        match (self, reply) {
            (CollectionState::Finding { org_uuid }, Reply::Collections(collections)) => {
                if names_collection(&collections, name) {
                    return Step::Done(Ok(()));
                }
                let collection = Collection {
                    uuid: ctx.fresh.collection.clone(),
                    org_uuid,
                    name: name.clone(),
                };
                Step::Call(CollectionState::Saving, Action::SaveCollection(collection))
            },
            (CollectionState::Saving, Reply::Done(result)) => Step::Done(result),
            _ => Step::Done(Err(SsoError::UnexpectedReply)),
        }
    }
}

fn from_bot(org: Organization, step: Step<BotState, Action, ()>) -> (lifted: Step<
    BootstrapState,
    Action,
    Organization,
>)
    ensures
        lifted@ == bootstrap_of_bot(org@, step@),
{
    match step {
        Step::Call(bot, action) => Step::Call(BootstrapState::Bot { org, bot }, action),
        Step::Done(Ok(())) => Step::Done(Ok(org)),
        Step::Done(Err(error)) => Step::Done(Err(error)),
    }
}

fn from_collection(
    ctx: &Context,
    org: Organization,
    step: Step<CollectionState, Action, ()>,
) -> (lifted: Step<BootstrapState, Action, Organization>)
    ensures
        lifted@ == bootstrap_of_collection(ctx@, org@, step@),
{
    match step {
        Step::Call(collection, action) => Step::Call(
            BootstrapState::Collection { org, collection },
            action,
        ),
        Step::Done(Ok(())) => {
            let bot = ensure_sso_org_bot_membership(ctx, &org.uuid);
            from_bot(org, bot)
        },
        Step::Done(Err(error)) => Step::Done(Err(error)),
    }
}

/// Makes the organization, with its first collection and its owner: the first step.
pub fn bootstrap_default_sso_org(ctx: &Context, org_uuid: String) -> (step: Step<
    BootstrapState,
    Action,
    Organization,
>)
    ensures
        step@ == bootstrap_start(ctx@, org_uuid@),
{
    let name = match &ctx.config.sso_org_bootstrap_name {
        Some(name) => name.clone(),
        None => {
            return Step::Done(Err(SsoError::MissingBootstrapName));
        },
    };
    let billing_email = match &ctx.config.sso_org_bootstrap_billing_email {
        Some(billing_email) => billing_email.clone(),
        None => {
            return Step::Done(Err(SsoError::MissingBootstrapBillingEmail));
        },
    };
    let org = Organization { uuid: org_uuid, name, billing_email };
    let saved = org.clone();
    Step::Call(BootstrapState::Saving { org }, Action::SaveOrganization(saved))
}

impl BootstrapState<String> {
    /// The step that follows a reply.
    pub fn advance(self, ctx: &Context, reply: Reply, now: UtcTime) -> (step: Step<
        BootstrapState,
        Action,
        Organization,
    >)
        ensures
            step@ == self@.after(ctx@, reply@, now),
    {
        match self {
            BootstrapState::Saving { org } => match reply {
                Reply::Done(Ok(())) => {
                    let collection = ensure_sso_org_bootstrap_collection(&org.uuid);
                    from_collection(ctx, org, collection)
                },
                Reply::Done(Err(error)) => Step::Done(Err(error)),
                _ => Step::Done(Err(SsoError::UnexpectedReply)),
            },
            BootstrapState::Collection { org, collection } => from_collection(
                ctx,
                org,
                collection.advance(ctx, reply),
            ),
            BootstrapState::Bot { org, bot } => from_bot(org, bot.advance(ctx, reply, now)),
        }
    }
}

fn resolved_by_bot(org: Organization, step: Step<BotState, Action, ()>) -> (lifted: Step<
    ResolveState,
    Action,
    Organization,
>)
    ensures
        lifted@ == resolve_of_bot(org@, step@),
{
    match step {
        Step::Call(bot, action) => Step::Call(ResolveState::Bot { org, bot }, action),
        Step::Done(Ok(())) => Step::Done(Ok(org)),
        Step::Done(Err(error)) => Step::Done(Err(error)),
    }
}

fn resolved_by_bootstrap(step: Step<BootstrapState, Action, Organization>) -> (lifted: Step<
    ResolveState,
    Action,
    Organization,
>)
    ensures
        lifted@ == resolve_of_bootstrap(step@),
{
    match step {
        Step::Call(state, action) => Step::Call(ResolveState::Bootstrap(state), action),
        Step::Done(result) => Step::Done(result),
    }
}

/// Finds the organization, or makes it where that is configured: the first step.
pub fn resolve_default_sso_org(ctx: &Context) -> (step: Step<ResolveState, Action, Organization>)
    ensures
        step@ == resolve_start(ctx@),
{
    match &ctx.config.sso_default_org_id {
        Some(org_uuid) => Step::Call(
            ResolveState::Finding { org_uuid: org_uuid.clone() },
            Action::FindOrganization { uuid: org_uuid.clone() },
        ),
        None => Step::Done(Err(SsoError::MissingDefaultOrgId)),
    }
}

impl ResolveState<String> {
    /// The step that follows a reply.
    pub fn advance(self, ctx: &Context, reply: Reply, now: UtcTime) -> (step: Step<
        ResolveState,
        Action,
        Organization,
    >)
        ensures
            step@ == self@.after(ctx@, reply@, now),
    {
        match self {
            ResolveState::Finding { org_uuid } => match reply {
                Reply::Organization(Some(org)) => {
                    let bot = ensure_sso_org_bot_membership(ctx, &org.uuid);
                    resolved_by_bot(org, bot)
                },
                Reply::Organization(None) => {
                    if ctx.config.sso_org_bootstrap {
                        resolved_by_bootstrap(bootstrap_default_sso_org(ctx, org_uuid))
                    } else {
                        Step::Done(Err(SsoError::DefaultOrgNotFound(org_uuid)))
                    }
                },
                _ => Step::Done(Err(SsoError::UnexpectedReply)),
            },
            ResolveState::Bot { org, bot } => resolved_by_bot(org, bot.advance(ctx, reply, now),
            ),
            ResolveState::Bootstrap(state) => resolved_by_bootstrap(
                state.advance(ctx, reply, now),
            ),
        }
    }
}

/// A step towards the first collection, as specifications see it.
pub type CollectionStep = StepView<CollectionState<Seq<char>>, ()>;

/// A step towards a new organization, as specifications see it.
pub type BootstrapStep = StepView<BootstrapState<Seq<char>>, Organization<Seq<char>>>;

/// A step of the search for the organization, as specifications see it.
pub type ResolveStep = StepView<ResolveState<Seq<char>>, Organization<Seq<char>>>;

/// The first collection is there in the end: where one of the organization's collections has
/// the configured name, wherever among them it stands, nothing is made, and where none has,
/// one of that name is made in the organization.
pub proof fn law_collection_is_found_or_made(
    ctx: ContextView,
    org_uuid: Seq<char>,
    collections: Seq<Collection<Seq<char>>>,
    i: int,
)
    ensures
        collection_start(org_uuid) == CollectionStep::Call(
            CollectionState::Finding { org_uuid },
            Action::FindCollections { org_uuid },
        ),
        ({
            let name = ctx.config.sso_org_bootstrap_collection_name;
            let step = (CollectionState::Finding { org_uuid }).after(
                ctx,
                Reply::Collections(collections),
            );
            &&& 0 <= i < collections.len() && collections[i].name == name ==> step
                == CollectionStep::Done(Ok(()))
            &&& (forall|j: int| 0 <= j < collections.len() ==> #[trigger] collections[j].name
                != name) ==> step == CollectionStep::Call(
                CollectionState::Saving,
                Action::SaveCollection(
                    Collection { uuid: ctx.fresh.collection, org_uuid, name },
                ),
            )
        }),
{
}

/// An organization is made under the configured identifier, with the configured name and
/// billing address, both of which there must be; then its first collection is seen to, and
/// then its owner.
pub proof fn law_org_is_made_as_configured(
    ctx: ContextView,
    org_uuid: Seq<char>,
    org: Organization<Seq<char>>,
    now: UtcTime,
)
    ensures
        ctx.config.sso_org_bootstrap_name is None ==> bootstrap_start(ctx, org_uuid)
            == BootstrapStep::Done(Err(SsoError::MissingBootstrapName)),
        ctx.config.sso_org_bootstrap_name is Some && ctx.config.sso_org_bootstrap_billing_email
            is None ==> bootstrap_start(ctx, org_uuid) == BootstrapStep::Done(
            Err(SsoError::MissingBootstrapBillingEmail),
        ),
        ctx.config.sso_org_bootstrap_name == Some(org.name)
            && ctx.config.sso_org_bootstrap_billing_email == Some(org.billing_email) && org_uuid
            == org.uuid ==> bootstrap_start(ctx, org_uuid) == BootstrapStep::Call(
            BootstrapState::Saving { org },
            Action::SaveOrganization(org),
        ),
        (BootstrapState::Saving { org }).after(ctx, Reply::Done(Ok(())), now)
            == BootstrapStep::Call(
            BootstrapState::Collection {
                org,
                collection: CollectionState::Finding { org_uuid: org.uuid },
            },
            Action::FindCollections { org_uuid: org.uuid },
        ),
{
}

/// While the collection or the owner of a new organization is seen to, the steps are those
/// of that; the owner is seen to once the collection is, and the organization is there once
/// both are. What fails ends it all with that failure.
pub proof fn law_new_org_is_furnished(
    ctx: ContextView,
    org: Organization<Seq<char>>,
    collection: CollectionState<Seq<char>>,
    bot: BotState<Seq<char>>,
    reply: ReplyView,
    now: UtcTime,
)
    ensures
        (BootstrapState::Collection { org, collection }).after(ctx, reply, now)
            == match collection.after(ctx, reply) {
            Step::Call(next, action) => BootstrapStep::Call(
                BootstrapState::Collection { org, collection: next },
                action,
            ),
            Step::Done(Err(error)) => BootstrapStep::Done(Err(error)),
            Step::Done(Ok(_)) => match bot_start(ctx, org.uuid) {
                Step::Call(bot, action) => BootstrapStep::Call(
                    BootstrapState::Bot { org, bot },
                    action,
                ),
                Step::Done(Err(error)) => BootstrapStep::Done(Err(error)),
                Step::Done(Ok(_)) => BootstrapStep::Done(Ok(org)),
            },
        },
        (BootstrapState::Bot { org, bot }).after(ctx, reply, now) == match bot.after(
            ctx,
            reply,
            now,
        ) {
            Step::Call(next, action) => BootstrapStep::Call(
                BootstrapState::Bot { org, bot: next },
                action,
            ),
            Step::Done(Err(error)) => BootstrapStep::Done(Err(error)),
            Step::Done(Ok(_)) => BootstrapStep::Done(Ok(org)),
        },
{
}

/// The organization is the one that is configured. Where it exists, its owner is seen to and
/// it is used as it is; where it does not, it is made if that is wanted, and else the search
/// fails; and where none is configured, it fails at once.
pub proof fn law_org_is_the_configured_one(
    ctx: ContextView,
    org_uuid: Seq<char>,
    org: Organization<Seq<char>>,
    bot: BotState<Seq<char>>,
    state: BootstrapState<Seq<char>>,
    reply: ReplyView,
    now: UtcTime,
)
    ensures
        ctx.config.sso_default_org_id is None ==> resolve_start(ctx) == ResolveStep::Done(
            Err(SsoError::MissingDefaultOrgId),
        ),
        ctx.config.sso_default_org_id == Some(org_uuid) ==> resolve_start(ctx) == ResolveStep::Call(
            ResolveState::Finding { org_uuid },
            Action::FindOrganization { uuid: org_uuid },
        ),
        (ResolveState::Finding { org_uuid }).after(ctx, Reply::Organization(Some(org)), now)
            == match bot_start(ctx, org.uuid) {
            Step::Call(bot, action) => ResolveStep::Call(ResolveState::Bot { org, bot }, action),
            Step::Done(Err(error)) => ResolveStep::Done(Err(error)),
            Step::Done(Ok(_)) => ResolveStep::Done(Ok(org)),
        },
        !ctx.config.sso_org_bootstrap ==> (ResolveState::Finding { org_uuid }).after(
            ctx,
            Reply::Organization(None),
            now,
        ) == ResolveStep::Done(Err(SsoError::DefaultOrgNotFound(org_uuid))),
        ctx.config.sso_org_bootstrap ==> (ResolveState::Finding { org_uuid }).after(
            ctx,
            Reply::Organization(None),
            now,
        ) == match bootstrap_start(ctx, org_uuid) {
            Step::Call(state, action) => ResolveStep::Call(ResolveState::Bootstrap(state), action),
            Step::Done(result) => ResolveStep::Done(result),
        },
        (ResolveState::Bot { org, bot }).after(ctx, reply, now) == match bot.after(
            ctx,
            reply,
            now,
        ) {
            Step::Call(next, action) => ResolveStep::Call(
                ResolveState::Bot { org, bot: next },
                action,
            ),
            Step::Done(Err(error)) => ResolveStep::Done(Err(error)),
            Step::Done(Ok(_)) => ResolveStep::Done(Ok(org)),
        },
        ResolveState::Bootstrap(state).after(ctx, reply, now) == match state.after(
            ctx,
            reply,
            now,
        ) {
            Step::Call(next, action) => ResolveStep::Call(ResolveState::Bootstrap(next), action),
            Step::Done(result) => ResolveStep::Done(result),
        },
{
}

/// What cannot be written ends the procedures with that failure, and a reply to something
/// else ends them too.
pub proof fn law_org_fails_as_told(
    ctx: ContextView,
    org: Organization<Seq<char>>,
    org_uuid: Seq<char>,
    result: Result<(), SsoError<Seq<char>>>,
    reply: ReplyView,
    now: UtcTime,
)
    ensures
        CollectionState::Saving.after(ctx, Reply::Done(result)) == CollectionStep::Done(result),
        !(reply is Done) ==> CollectionState::Saving.after(ctx, reply) == CollectionStep::Done(
            Err(SsoError::UnexpectedReply),
        ),
        !(reply is Collections) ==> (CollectionState::Finding { org_uuid }).after(ctx, reply)
            == CollectionStep::Done(Err(SsoError::UnexpectedReply)),
        result matches Err(error) ==> (BootstrapState::Saving { org }).after(
            ctx,
            Reply::Done(result),
            now,
        ) == BootstrapStep::Done(Err(error)),
        !(reply is Done) ==> (BootstrapState::Saving { org }).after(ctx, reply, now)
            == BootstrapStep::Done(Err(SsoError::UnexpectedReply)),
        !(reply is Organization) ==> (ResolveState::Finding { org_uuid }).after(ctx, reply, now)
            == ResolveStep::Done(Err(SsoError::UnexpectedReply)),
{
}

} // verus!
