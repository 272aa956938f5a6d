//! The end of a login: the login is used up, the user is linked to the provider and made
//! a member of the organization, and the session begins.
use vstd::prelude::*;
use vstd::utf8::encode_utf8;

use crate::clock::{read_clock, Clock};
use crate::confirm::is_org_key;
use crate::error::{result_view, SsoError};
use crate::protocol::{Action, ActionView, Context, ContextView, Reply, ReplyView, Step, StepView};
use crate::reconcile::{
    lemma_seals_one_org_key, reconcile_default_org_membership, reconcile_start, seal, seal_answer,
    ReconcileState, ReconcileStep,
};
use crate::records::SsoUser;
use crate::seal::sealing_outcome;
use crate::session::{session_outcome, try_create_auth_tokens, AuthTokens, SessionRequest};

verus! {

/// What a login ends with: its state, the user's link to the provider if there is one,
/// who the user is at the provider, and what the session is made from.
#[derive(Debug, PartialEq, Eq)]
pub struct RedeemRequest<S = String> {
    pub state: S,
    pub sso_user: Option<SsoUser<S>>,
    pub identifier: S,
    pub session: SessionRequest<S>,
}

/// How far the end of a login has come.
#[derive(Debug, PartialEq, Eq)]
pub enum RedeemState<S = String> {
    /// The login is deleted.
    Deleting { sso_user: Option<SsoUser<S>>, identifier: S, session: SessionRequest<S> },
    /// The user is linked to the provider.
    Linking { session: SessionRequest<S> },
    /// The user's membership is brought to where the settings want it.
    Reconciling { session: SessionRequest<S>, membership: ReconcileState<S> },
}

impl View for RedeemRequest<String> {
    type V = RedeemRequest<Seq<char>>;

    open spec fn view(&self) -> RedeemRequest<Seq<char>> {
        RedeemRequest {
            state: self.state@,
            sso_user: self.sso_user.deep_view(),
            identifier: self.identifier@,
            session: self.session@,
        }
    }
}

impl View for RedeemState<String> {
    type V = RedeemState<Seq<char>>;

    open spec fn view(&self) -> RedeemState<Seq<char>> {
        match self {
            RedeemState::Deleting { sso_user, identifier, session } => RedeemState::Deleting {
                sso_user: sso_user.deep_view(),
                identifier: identifier@,
                session: session@,
            },
            RedeemState::Linking { session } => RedeemState::Linking { session: session@ },
            RedeemState::Reconciling { session, membership } => RedeemState::Reconciling {
                session: session@,
                membership: membership@,
            },
        }
    }
}

/// A step of the end of a login, as specifications see it.
pub type RedeemStep = StepView<RedeemState<Seq<char>>, AuthTokens<Seq<char>>>;

/// The first step: the login is deleted, so that nobody can use it again.
pub open spec fn redeem_start(request: RedeemRequest<Seq<char>>) -> RedeemStep {
    Step::Call(
        RedeemState::Deleting {
            sso_user: request.sso_user,
            identifier: request.identifier,
            session: request.session,
        },
        Action::DeleteSsoAuth { state: request.state },
    )
}

/// The step of the end of a login, given that of the membership. Once the membership is
/// where it should be, the session begins.
pub open spec fn redeem_of_reconcile(
    ctx: ContextView,
    session: SessionRequest<Seq<char>>,
    step: ReconcileStep,
    clock: Clock,
) -> RedeemStep {
    match step {
        Step::Call(membership, action) => Step::Call(
            RedeemState::Reconciling { session, membership },
            action,
        ),
        Step::Done(Ok(_)) => Step::Done(
            session_outcome(ctx.config, ctx.device, ctx.user, session, clock),
        ),
        Step::Done(Err(error)) => Step::Done(Err(error)),
    }
}

impl RedeemState<Seq<char>> {
    /// The step that follows a reply.
    pub open spec fn after(self, ctx: ContextView, reply: ReplyView, clock: Clock) -> RedeemStep {
        match (self, reply) {
            (RedeemState::Deleting { sso_user, identifier, session }, Reply::Done(Ok(_))) => {
                match sso_user {
                    None => Step::Call(
                        RedeemState::Linking { session },
                        Action::SaveSsoUser(SsoUser { user_uuid: ctx.user.uuid, identifier }),
                    ),
                    Some(_) => redeem_of_reconcile(ctx, session, reconcile_start(ctx), clock),
                }
            },
            (RedeemState::Linking { session }, Reply::Done(Ok(_))) => redeem_of_reconcile(
                ctx,
                session,
                reconcile_start(ctx),
                clock,
            ),
            (RedeemState::Deleting { .. }, Reply::Done(Err(error))) => Step::Done(Err(error)),
            (RedeemState::Linking { .. }, Reply::Done(Err(error))) => Step::Done(Err(error)),
            (RedeemState::Reconciling { session, membership }, _) => redeem_of_reconcile(
                ctx,
                session,
                membership.after(ctx, reply, clock.utc),
                clock,
            ),
            _ => Step::Done(Err(SsoError::UnexpectedReply)),
        }
    }

    /// The library's own part of a step, when the clocks show this: where the
    /// organization's key is to be sealed, and `sealed` comes of it, the procedure goes on
    /// with that.
    pub open spec fn settled(
        self,
        ctx: ContextView,
        reply: ReplyView,
        clock: Clock,
        sealed: Result<Seq<char>, SsoError<Seq<char>>>,
    ) -> RedeemStep {
        match self.after(ctx, reply, clock) {
            Step::Call(state, Action::SealOrgKey { .. }) => state.after(
                ctx,
                Reply::Sealed(sealed),
                clock,
            ),
            step => step,
        }
    }

    /// The clocks can show this, and `sealed` can come of sealing, where the step that
    /// follows the reply asks for it.
    pub open spec fn allows(
        self,
        ctx: ContextView,
        reply: ReplyView,
        clock: Clock,
        sealed: Result<Seq<char>, SsoError<Seq<char>>>,
    ) -> bool {
        &&& clock.utc.wf()
        &&& self.after(ctx, reply, clock) matches Step::Call(
            _,
            Action::SealOrgKey { org_key, public_key },
        ) ==> seal_answer(org_key, public_key, sealed)
    }
}

fn from_reconcile(
    ctx: &Context,
    session: SessionRequest,
    step: Step<ReconcileState, Action, ()>,
    clock: Clock,
) -> (lifted: Step<RedeemState, Action, AuthTokens>)
    requires
        clock.utc.wf(),
    ensures
        lifted@ == redeem_of_reconcile(ctx@, session@, step@, clock),
{
    match step {
        Step::Call(membership, action) => Step::Call(
            RedeemState::Reconciling { session, membership },
            action,
        ),
        Step::Done(Ok(())) => Step::Done(
            try_create_auth_tokens(&ctx.config, &ctx.device, &ctx.user, session, clock),
        ),
        Step::Done(Err(error)) => Step::Done(Err(error)),
    }
}

/// Ends a login, after the second factor if there is one: the first step.
pub fn redeem(request: RedeemRequest) -> (step: Step<RedeemState, Action, AuthTokens>)
    ensures
        step@ == redeem_start(request@),
{
    Step::Call(
        RedeemState::Deleting {
            sso_user: request.sso_user,
            identifier: request.identifier,
            session: request.session,
        },
        Action::DeleteSsoAuth { state: request.state },
    )
}

impl RedeemState<String> {
    /// The step that follows a reply, when the clocks show this.
    pub fn advance(self, ctx: &Context, reply: Reply, clock: Clock) -> (step: Step<
        RedeemState,
        Action,
        AuthTokens,
    >)
        requires
            clock.utc.wf(),
        ensures
            step@ == self@.after(ctx@, reply@, clock),
    {
        match (self, reply) {
            (RedeemState::Deleting { sso_user, identifier, session }, Reply::Done(deleted)) => {
                match deleted {
                    Ok(()) => {
                        if sso_user.is_none() {
                            let link = SsoUser { user_uuid: ctx.user.uuid.clone(), identifier };
                            Step::Call(RedeemState::Linking { session }, Action::SaveSsoUser(link))
                        } else {
                            let membership = reconcile_default_org_membership(ctx);
                            from_reconcile(ctx, session, membership, clock)
                        }
                    },
                    Err(error) => Step::Done(Err(error)),
                }
            },
            (RedeemState::Linking { session }, Reply::Done(linked)) => match linked {
                Ok(()) => {
                    let membership = reconcile_default_org_membership(ctx);
                    from_reconcile(ctx, session, membership, clock)
                },
                Err(error) => Step::Done(Err(error)),
            },
            (RedeemState::Reconciling { session, membership }, reply) => from_reconcile(
                ctx,
                session,
                membership.advance(ctx, reply, clock.utc),
                clock,
            ),
            _ => Step::Done(Err(SsoError::UnexpectedReply)),
        }
    }

    /// The step that follows a reply now. Where the organization's key is to be sealed, it
    /// is, and the step is the one that follows that.
    pub fn resume(self, ctx: &Context, reply: Reply) -> (step: Step<
        RedeemState,
        Action,
        AuthTokens,
    >)
        ensures
            exists|clock: Clock, sealed: Result<Seq<char>, SsoError<Seq<char>>>|
                self@.allows(ctx@, reply@, clock, sealed) && step@ == #[trigger] self@.settled(
                    ctx@,
                    reply@,
                    clock,
                    sealed,
                ),
            !(step@ matches Step::Call(_, Action::SealOrgKey { .. })),
    {
        let clock = read_clock();
        proof {
            lemma_seals_one_key(self@, ctx@, reply@, clock);
        }
        match self.advance(ctx, reply, clock) {
            Step::Call(state, Action::SealOrgKey { org_key, public_key }) => {
                let sealed = seal(org_key, public_key);
                let ghost outcome = result_view(sealed);
                let step = state.advance(ctx, Reply::Sealed(sealed), clock);
                assert(step@ == self@.settled(ctx@, reply@, clock, outcome));
                step
            },
            step => {
                let ghost outcome: Result<Seq<char>, SsoError<Seq<char>>> = Err(SsoError::TooLong);
                assert(step@ == self@.settled(ctx@, reply@, clock, outcome));
                step
            },
        }
    }
}

/// Where a key is sealed, it has the length of an organization key, and once it is
/// sealed no key is to be sealed again.
pub proof fn lemma_seals_one_key(
    state: RedeemState<Seq<char>>,
    ctx: ContextView,
    reply: ReplyView,
    clock: Clock,
)
    ensures
        state.after(ctx, reply, clock) matches Step::Call(
            next,
            Action::SealOrgKey { org_key, public_key },
        ) ==> {
            &&& is_org_key(org_key)
            &&& forall|sealed: Result<Seq<char>, SsoError<Seq<char>>>| !(#[trigger] next.after(
                ctx,
                Reply::Sealed(sealed),
                clock,
            ) matches Step::Call(_, Action::SealOrgKey { .. }))
        },
{
    if let RedeemState::Reconciling { membership, .. } = state {
        lemma_seals_one_org_key(membership, ctx, reply, clock.utc);
    }
}

/// A login can be ended but once: it is deleted before anything else happens, and where
/// it cannot be deleted nothing else does.
pub proof fn law_login_is_used_up_first(
    request: RedeemRequest<Seq<char>>,
    ctx: ContextView,
    error: SsoError<Seq<char>>,
    clock: Clock,
)
    ensures
        redeem_start(request) matches Step::Call(state, action) && action
            == (ActionView::DeleteSsoAuth { state: request.state }) && state.after(
            ctx,
            Reply::Done(Err(error)),
            clock,
        ) == RedeemStep::Done(Err(error)),
{
}

/// A session begins only where the membership is where it should be, and it is the one
/// that was asked for.
pub proof fn law_session_follows_membership(
    state: RedeemState<Seq<char>>,
    ctx: ContextView,
    reply: ReplyView,
    clock: Clock,
)
    ensures
        state.after(ctx, reply, clock) matches Step::Done(Ok(tokens)) ==> match state {
            RedeemState::Deleting { session, .. } | RedeemState::Linking { session } => {
                &&& reply matches Reply::Done(Ok(_))
                &&& reconcile_start(ctx) matches Step::Done(Ok(_))
                &&& session_outcome(ctx.config, ctx.device, ctx.user, session, clock)
                    == Ok::<_, SsoError<Seq<char>>>(tokens)
            },
            RedeemState::Reconciling { session, membership } => {
                &&& membership.after(ctx, reply, clock.utc) matches Step::Done(Ok(_))
                &&& session_outcome(ctx.config, ctx.device, ctx.user, session, clock)
                    == Ok::<_, SsoError<Seq<char>>>(tokens)
            },
        },
{
}

/// A user who has no link to the provider is linked, with the identifier that the login
/// has brought; one who has a link keeps it.
pub proof fn law_user_is_linked_once(
    request: RedeemRequest<Seq<char>>,
    ctx: ContextView,
    clock: Clock,
)
    ensures
        redeem_start(request) matches Step::Call(state, _) && match request.sso_user {
            None => state.after(ctx, Reply::Done(Ok(())), clock) == RedeemStep::Call(
                RedeemState::Linking { session: request.session },
                Action::SaveSsoUser(
                    SsoUser { user_uuid: ctx.user.uuid, identifier: request.identifier },
                ),
            ),
            Some(_) => !(state.after(ctx, Reply::Done(Ok(())), clock) matches Step::Call(
                _,
                Action::SaveSsoUser(_),
            )),
        },
{
}

/// How the end of a login begins: the login with its state is deleted, and nothing that the
/// session is made from is lost.
pub proof fn law_redeeming_begins_with_the_login(request: RedeemRequest<Seq<char>>)
    ensures
        redeem_start(request) == RedeemStep::Call(
            RedeemState::Deleting {
                sso_user: request.sso_user,
                identifier: request.identifier,
                session: request.session,
            },
            Action::DeleteSsoAuth { state: request.state },
        ),
{
}

/// Every user's membership is seen to, linked before or linked just now: once the login is
/// deleted and the link is there, the procedure goes on with the first step for the
/// membership, whatever that is.
pub proof fn law_every_user_is_reconciled(
    ctx: ContextView,
    link: SsoUser<Seq<char>>,
    identifier: Seq<char>,
    session: SessionRequest<Seq<char>>,
    clock: Clock,
)
    ensures
        ({
            let deleted = (RedeemState::Deleting {
                sso_user: Some(link),
                identifier,
                session,
            }).after(ctx, Reply::Done(Ok(())), clock);
            let linked = (RedeemState::Linking { session }).after(
                ctx,
                Reply::Done(Ok(())),
                clock,
            );
            &&& deleted == linked
            &&& linked == match reconcile_start(ctx) {
                Step::Call(membership, action) => RedeemStep::Call(
                    RedeemState::Reconciling { session, membership },
                    action,
                ),
                Step::Done(Ok(_)) => RedeemStep::Done(
                    session_outcome(ctx.config, ctx.device, ctx.user, session, clock),
                ),
                Step::Done(Err(error)) => RedeemStep::Done(Err(error)),
            }
        }),
        (RedeemState::Deleting { sso_user: None, identifier, session }).after(
            ctx,
            Reply::Done(Ok(())),
            clock,
        ) == RedeemStep::Call(
            RedeemState::Linking { session },
            Action::SaveSsoUser(SsoUser { user_uuid: ctx.user.uuid, identifier }),
        ),
{
}

/// While the membership is seen to, the steps are those of that; the session begins when it
/// ends well, and the login fails when it fails.
pub proof fn law_session_waits_for_the_membership(
    ctx: ContextView,
    session: SessionRequest<Seq<char>>,
    membership: ReconcileState<Seq<char>>,
    reply: ReplyView,
    clock: Clock,
)
    ensures
        (RedeemState::Reconciling { session, membership }).after(ctx, reply, clock)
            == match membership.after(ctx, reply, clock.utc) {
            Step::Call(next, action) => RedeemStep::Call(
                RedeemState::Reconciling { session, membership: next },
                action,
            ),
            Step::Done(Ok(_)) => RedeemStep::Done(
                session_outcome(ctx.config, ctx.device, ctx.user, session, clock),
            ),
            Step::Done(Err(error)) => RedeemStep::Done(Err(error)),
        },
{
}

/// A login that cannot be deleted, and a link that cannot be written down, fail the login for
/// that reason; a reply to something else fails it too.
pub proof fn law_redeeming_fails_as_told(
    ctx: ContextView,
    state: RedeemState<Seq<char>>,
    reply: ReplyView,
    clock: Clock,
)
    ensures
        !(state is Reconciling) ==> match reply {
            Reply::Done(Ok(_)) => true,
            Reply::Done(Err(error)) => state.after(ctx, reply, clock) == RedeemStep::Done(
                Err(error),
            ),
            _ => state.after(ctx, reply, clock) == RedeemStep::Done(
                Err(SsoError::UnexpectedReply),
            ),
        },
{
}

/// The library's own part of a step: where a key is to be sealed, what goes on is the state
/// that has asked for it, with what can come of sealing just this key under just that public
/// key; and else the step is the one that follows the reply.
pub proof fn law_redeeming_seals_by_itself(
    state: RedeemState<Seq<char>>,
    ctx: ContextView,
    reply: ReplyView,
    clock: Clock,
    sealed: Result<Seq<char>, SsoError<Seq<char>>>,
)
    ensures
        match state.after(ctx, reply, clock) {
            Step::Call(next, Action::SealOrgKey { org_key, public_key }) => {
                &&& state.settled(ctx, reply, clock, sealed) == next.after(
                    ctx,
                    Reply::Sealed(sealed),
                    clock,
                )
                &&& state.allows(ctx, reply, clock, sealed) ==> if encode_utf8(public_key).len()
                    <= usize::MAX / 8 {
                    sealing_outcome(org_key, public_key, sealed)
                } else {
                    sealed matches Err(SsoError::TooLong)
                }
            },
            step => state.settled(ctx, reply, clock, sealed) == step,
        },
{
}

} // verus!
