//! A user's membership in the organization, brought to where the settings want it.
use vstd::prelude::*;
use vstd::utf8::encode_utf8;

use crate::base64::decodable;
use crate::clock::{utc_now, UtcTime};
use crate::confirm::{
    auto_confirm_default_org_membership, confirm_start, is_org_key, ConfirmState,
};
use crate::error::{result_view, SsoError};
use crate::organization::{resolve_default_sso_org, resolve_start, ResolveState};
use crate::protocol::{
    Action, ActionView, Context, ContextView, EventType, Mail, PolicyUse, Reply, ReplyView, Step,
    StepView,
};
use crate::records::{Membership, MembershipStatus, MembershipType, Organization};
use crate::seal::{encrypt_org_key_for_user, sealing_outcome};

verus! {

/// How far a membership has come.
#[derive(Debug, PartialEq, Eq)]
pub enum ReconcileState<S = String> {
    /// The organization is found or made.
    Resolving(ResolveState<S>),
    /// The user's membership is looked up.
    Finding { org: Organization<S> },
    /// It was accepted before; it is confirmed.
    Confirming(ConfirmState<S>),
    /// The user was invited before; the invitation is accepted.
    Accepting { org: Organization<S> },
    /// The accepted membership is looked up again.
    FindingAccepted { org: Organization<S> },
    /// The accepted membership is confirmed.
    ConfirmingAccepted { org: Organization<S>, state: ConfirmState<S> },
    /// There was no membership; the policies are asked about a new one.
    CheckingPolicy { org: Organization<S>, member: Membership<S> },
    /// The new membership is written down.
    Saving { org: Organization<S>, member: Membership<S> },
    /// That failed; whether somebody else was faster is looked up.
    Recovering { error: SsoError<S> },
    /// The new membership is noted.
    Logging { org: Organization<S>, member: Membership<S> },
    /// The new membership is confirmed.
    ConfirmingNew(ConfirmState<S>),
    /// An accepted membership could not be confirmed; it is noted.
    ConfirmFailed { org: Organization<S> },
    /// The user is told that the invitation was accepted.
    MailingEnrolled,
    /// The user is told of the new membership.
    MailingNotice,
    /// Something that ends nothing has failed last; it is noted.
    Noting,
}

impl View for ReconcileState<String> {
    type V = ReconcileState<Seq<char>>;

    open spec fn view(&self) -> ReconcileState<Seq<char>> {
        match self {
            ReconcileState::Resolving(state) => ReconcileState::Resolving(state@),
            ReconcileState::Finding { org } => ReconcileState::Finding { org: org@ },
            ReconcileState::Confirming(state) => ReconcileState::Confirming(state@),
            ReconcileState::Accepting { org } => ReconcileState::Accepting { org: org@ },
            ReconcileState::FindingAccepted { org } => ReconcileState::FindingAccepted {
                org: org@,
            },
            ReconcileState::ConfirmingAccepted { org, state } => {
                ReconcileState::ConfirmingAccepted { org: org@, state: state@ }
            },
            ReconcileState::CheckingPolicy { org, member } => ReconcileState::CheckingPolicy {
                org: org@,
                member: member@,
            },
            ReconcileState::Saving { org, member } => ReconcileState::Saving {
                org: org@,
                member: member@,
            },
            ReconcileState::Recovering { error } => ReconcileState::Recovering { error: error@ },
            ReconcileState::Logging { org, member } => ReconcileState::Logging {
                org: org@,
                member: member@,
            },
            ReconcileState::ConfirmingNew(state) => ReconcileState::ConfirmingNew(state@),
            ReconcileState::ConfirmFailed { org } => ReconcileState::ConfirmFailed { org: org@ },
            ReconcileState::MailingEnrolled => ReconcileState::MailingEnrolled,
            ReconcileState::MailingNotice => ReconcileState::MailingNotice,
            ReconcileState::Noting => ReconcileState::Noting,
        }
    }
}

/// A step of the procedure, as specifications see it.
pub type ReconcileStep = StepView<ReconcileState<Seq<char>>, ()>;

/// What is noted where a membership could not be confirmed.
pub open spec fn unconfirmed() -> Seq<char> {
    "Failed to auto-confirm default SSO organization membership for "@
}

/// What is noted where the mail on an accepted invitation could not be sent.
pub open spec fn enrollment_unsent() -> Seq<char> {
    "Failed to send SSO default org enrollment mail to "@
}

/// What is noted where the mail on a new membership could not be sent.
pub open spec fn notice_unsent() -> Seq<char> {
    "Failed to send SSO default org notification to "@
}

/// The membership that is made for a user who has none.
pub open spec fn new_membership(ctx: ContextView, org: Organization<Seq<char>>) -> Membership<
    Seq<char>,
> {
    Membership {
        uuid: ctx.fresh.membership,
        user_uuid: ctx.user.uuid,
        org_uuid: org.uuid,
        invited_by_email: Some(org.billing_email),
        access_all: false,
        akey: Seq::empty(),
        status: if ctx.config.sso_org_invite_auto_accept {
            MembershipStatus::Accepted
        } else {
            MembershipStatus::Invited
        },
        atype: MembershipType::User,
    }
}

/// The step in which the user's membership is looked up, on the way to `state`.
pub open spec fn reconcile_find(
    ctx: ContextView,
    org_uuid: Seq<char>,
    state: ReconcileState<Seq<char>>,
) -> ReconcileStep {
    Step::Call(state, Action::FindMembership { user_uuid: ctx.user.uuid, org_uuid })
}

/// The step of the procedure, given that of the search for the organization.
pub open spec fn reconcile_of_resolve(
    ctx: ContextView,
    step: StepView<ResolveState<Seq<char>>, Organization<Seq<char>>>,
) -> ReconcileStep {
    match step {
        Step::Call(state, action) => Step::Call(ReconcileState::Resolving(state), action),
        Step::Done(Ok(org)) => reconcile_find(ctx, org.uuid, ReconcileState::Finding { org }),
        Step::Done(Err(error)) => Step::Done(Err(error)),
    }
}

/// The step of the procedure, given that of the confirmation of a membership that was
/// accepted before. It ends as the confirmation ends.
pub open spec fn reconcile_of_confirm(
    step: StepView<ConfirmState<Seq<char>>, ()>,
) -> ReconcileStep {
    match step {
        Step::Call(state, action) => Step::Call(ReconcileState::Confirming(state), action),
        Step::Done(result) => Step::Done(result),
    }
}

/// The step in which a user is told that the invitation was accepted, where the membership
/// is not confirmed on the spot.
pub open spec fn reconcile_enrolled(
    ctx: ContextView,
    org: Organization<Seq<char>>,
) -> ReconcileStep {
    if ctx.config.mail_enabled && !ctx.config.sso_org_auto_confirm {
        Step::Call(
            ReconcileState::MailingEnrolled,
            Action::SendMail(Mail::Enrolled { email: ctx.user.email, org_name: org.name }),
        )
    } else {
        Step::Done(Ok(()))
    }
}

/// The step of the procedure, given that of the confirmation of a membership that was
/// accepted just now. That it fails is noted, and does not undo the acceptance.
pub open spec fn reconcile_of_accepted(
    ctx: ContextView,
    org: Organization<Seq<char>>,
    step: StepView<ConfirmState<Seq<char>>, ()>,
) -> ReconcileStep {
    match step {
        Step::Call(state, action) => Step::Call(
            ReconcileState::ConfirmingAccepted { org, state },
            action,
        ),
        Step::Done(Ok(_)) => reconcile_enrolled(ctx, org),
        Step::Done(Err(error)) => Step::Call(
            ReconcileState::ConfirmFailed { org },
            ctx.complaint(unconfirmed(), error),
        ),
    }
}

/// The step of the procedure, given that of the confirmation of a new membership. That
/// it fails is noted, and does not undo the membership.
pub open spec fn reconcile_of_new(
    ctx: ContextView,
    step: StepView<ConfirmState<Seq<char>>, ()>,
) -> ReconcileStep {
    match step {
        Step::Call(state, action) => Step::Call(ReconcileState::ConfirmingNew(state), action),
        Step::Done(Ok(_)) => Step::Done(Ok(())),
        Step::Done(Err(error)) => Step::Call(
            ReconcileState::Noting,
            ctx.complaint(unconfirmed(), error),
        ),
    }
}

/// The step that follows once the user's membership was looked up.
pub open spec fn reconcile_found(
    ctx: ContextView,
    org: Organization<Seq<char>>,
    found: Option<Membership<Seq<char>>>,
) -> ReconcileStep {
    match found {
        Some(member) => match member.status {
            MembershipStatus::Accepted => reconcile_of_confirm(confirm_start(ctx, org, member)),
            MembershipStatus::Invited => if ctx.config.sso_org_invite_auto_accept {
                Step::Call(ReconcileState::Accepting { org }, Action::AcceptInvite(member))
            } else {
                Step::Done(Ok(()))
            },
            _ => Step::Done(Ok(())),
        },
        None => if ctx.config.sso_org_auto_provision {
            let member = new_membership(ctx, org);
            Step::Call(
                ReconcileState::CheckingPolicy { org, member },
                Action::CheckPolicy { member, policy_use: PolicyUse::Join },
            )
        } else {
            Step::Done(Ok(()))
        },
    }
}

/// The step that follows once a new membership was noted.
pub open spec fn reconcile_logged(
    ctx: ContextView,
    org: Organization<Seq<char>>,
    member: Membership<Seq<char>>,
) -> ReconcileStep {
    if ctx.config.sso_org_auto_confirm {
        reconcile_of_new(ctx, confirm_start(ctx, org, member))
    } else if ctx.config.mail_enabled {
        let mail = if member.status == MembershipStatus::Accepted {
            Mail::Enrolled { email: ctx.user.email, org_name: org.name }
        } else {
            Mail::Invite {
                email: ctx.user.email,
                org_uuid: org.uuid,
                member_uuid: member.uuid,
                org_name: org.name,
                invited_by_email: Some(org.billing_email),
            }
        };
        Step::Call(ReconcileState::MailingNotice, Action::SendMail(mail))
    } else {
        Step::Done(Ok(()))
    }
}

/// The first step. There is none to take where the settings want nothing of the
/// organization.
pub open spec fn reconcile_start(ctx: ContextView) -> ReconcileStep {
    if ctx.config.wants_org() {
        reconcile_of_resolve(ctx, resolve_start(ctx))
    } else {
        Step::Done(Ok(()))
    }
}

impl ReconcileState<Seq<char>> {
    /// The step that follows a reply.
    pub open spec fn after(
        self,
        ctx: ContextView,
        reply: ReplyView,
        now: UtcTime,
    ) -> ReconcileStep {
        match (self, reply) {
            (ReconcileState::Resolving(state), _) => reconcile_of_resolve(
                ctx,
                state.after(ctx, reply, now),
            ),
            (ReconcileState::Finding { org }, Reply::Membership(found)) => reconcile_found(
                ctx,
                org,
                found,
            ),
            (ReconcileState::Confirming(state), _) => reconcile_of_confirm(
                state.after(ctx, reply),
            ),
            (ReconcileState::Accepting { org }, Reply::Done(Ok(_))) => reconcile_find(
                ctx,
                org.uuid,
                ReconcileState::FindingAccepted { org },
            ),
            (ReconcileState::Accepting { .. }, Reply::Done(Err(error))) => Step::Done(Err(error)),
            (ReconcileState::FindingAccepted { org }, Reply::Membership(Some(member))) => {
                reconcile_of_accepted(ctx, org, confirm_start(ctx, org, member))
            },
            (ReconcileState::FindingAccepted { org }, Reply::Membership(None)) => {
                reconcile_enrolled(ctx, org)
            },
            (ReconcileState::ConfirmingAccepted { org, state }, _) => reconcile_of_accepted(
                ctx,
                org,
                state.after(ctx, reply),
            ),
            (ReconcileState::CheckingPolicy { org, member }, Reply::Done(Ok(_))) => Step::Call(
                ReconcileState::Saving { org, member },
                Action::SaveMembership(member),
            ),
            (ReconcileState::CheckingPolicy { .. }, Reply::Done(Err(error))) => {
                Step::Done(Err(error))
            },
            (ReconcileState::Saving { org, member }, Reply::Done(Ok(_))) => Step::Call(
                ReconcileState::Logging { org, member },
                ctx.event(EventType::OrganizationUserInvited, member.uuid, org.uuid),
            ),
            (ReconcileState::Saving { org, .. }, Reply::Done(Err(error))) => reconcile_find(
                ctx,
                org.uuid,
                ReconcileState::Recovering { error },
            ),
            (ReconcileState::Recovering { .. }, Reply::Membership(Some(_))) => Step::Done(Ok(())),
            (ReconcileState::Recovering { error }, Reply::Membership(None)) => {
                Step::Done(Err(error))
            },
            (ReconcileState::Logging { org, member }, Reply::Logged) => reconcile_logged(
                ctx,
                org,
                member,
            ),
            (ReconcileState::ConfirmingNew(state), _) => reconcile_of_new(
                ctx,
                state.after(ctx, reply),
            ),
            (ReconcileState::ConfirmFailed { org }, Reply::Logged) => reconcile_enrolled(ctx, org),
            (ReconcileState::MailingEnrolled, Reply::Done(Ok(_))) => Step::Done(Ok(())),
            (ReconcileState::MailingEnrolled, Reply::Done(Err(error))) => Step::Call(
                ReconcileState::Noting,
                ctx.complaint(enrollment_unsent(), error),
            ),
            (ReconcileState::MailingNotice, Reply::Done(Ok(_))) => Step::Done(Ok(())),
            (ReconcileState::MailingNotice, Reply::Done(Err(error))) => Step::Call(
                ReconcileState::Noting,
                ctx.complaint(notice_unsent(), error),
            ),
            (ReconcileState::Noting, Reply::Logged) => Step::Done(Ok(())),
            _ => Step::Done(Err(SsoError::UnexpectedReply)),
        }
    }
}

/// What can come of sealing the organization's key for the user with the public key,
/// which may be too long to be read.
pub open spec fn seal_answer(
    org_key: Seq<u8>,
    public_key: Seq<char>,
    sealed: Result<Seq<char>, SsoError<Seq<char>>>,
) -> bool {
    if decodable(encode_utf8(public_key)) {
        sealing_outcome(org_key, public_key, sealed)
    } else {
        sealed matches Err(SsoError::TooLong)
    }
}

impl ReconcileState<Seq<char>> {
    /// The library's own part of a step, at the instant `now`: where the organization's
    /// key is to be sealed, and `sealed` comes of it, the procedure goes on with that.
    pub open spec fn settled(
        self,
        ctx: ContextView,
        reply: ReplyView,
        now: UtcTime,
        sealed: Result<Seq<char>, SsoError<Seq<char>>>,
    ) -> ReconcileStep {
        match self.after(ctx, reply, now) {
            Step::Call(state, Action::SealOrgKey { .. }) => state.after(
                ctx,
                Reply::Sealed(sealed),
                now,
            ),
            step => step,
        }
    }

    /// `now` is an instant, and `sealed` can come of sealing, where the step that follows
    /// the reply asks for it.
    pub open spec fn allows(
        self,
        ctx: ContextView,
        reply: ReplyView,
        now: UtcTime,
        sealed: Result<Seq<char>, SsoError<Seq<char>>>,
    ) -> bool {
        &&& now.wf()
        &&& self.after(ctx, reply, now) matches Step::Call(
            _,
            Action::SealOrgKey { org_key, public_key },
        ) ==> seal_answer(org_key, public_key, sealed)
    }
}

/// Where a key is sealed, it has the length of an organization key, and once it is
/// sealed no key is to be sealed again.
pub proof fn lemma_seals_one_org_key(
    state: ReconcileState<Seq<char>>,
    ctx: ContextView,
    reply: ReplyView,
    now: UtcTime,
)
    ensures
        state.after(ctx, reply, now) matches Step::Call(
            next,
            Action::SealOrgKey { org_key, public_key },
        ) ==> {
            &&& is_org_key(org_key)
            &&& forall|sealed: Result<Seq<char>, SsoError<Seq<char>>>| !(#[trigger] next.after(
                ctx,
                Reply::Sealed(sealed),
                now,
            ) matches Step::Call(_, Action::SealOrgKey { .. }))
        },
{
}

pub(crate) fn seal(org_key: Vec<u8>, public_key: String) -> (sealed: Result<String, SsoError>)
    requires
        is_org_key(org_key@),
    ensures
        seal_answer(org_key@, public_key@, result_view(sealed)),
{
    if public_key.as_str().as_bytes().len() > usize::MAX / 8 {
        return Err(SsoError::TooLong);
    }
    encrypt_org_key_for_user(org_key.as_slice(), &public_key)
}

fn find_user_membership(ctx: &Context, org_uuid: &String) -> (action: Action)
    ensures
        action@ == (ActionView::FindMembership { user_uuid: ctx@.user.uuid, org_uuid: org_uuid@ }),
{
    Action::FindMembership { user_uuid: ctx.user.uuid.clone(), org_uuid: org_uuid.clone() }
}

fn from_resolve(ctx: &Context, step: Step<ResolveState, Action, Organization>) -> (lifted: Step<
    ReconcileState,
    Action,
    (),
>)
    ensures
        lifted@ == reconcile_of_resolve(ctx@, step@),
{
    match step {
        Step::Call(state, action) => Step::Call(ReconcileState::Resolving(state), action),
        Step::Done(Ok(org)) => {
            let find = find_user_membership(ctx, &org.uuid);
            Step::Call(ReconcileState::Finding { org }, find)
        },
        Step::Done(Err(error)) => Step::Done(Err(error)),
    }
}

fn from_confirm(step: Step<ConfirmState, Action, ()>) -> (lifted: Step<ReconcileState, Action, ()>)
    ensures
        lifted@ == reconcile_of_confirm(step@),
{
    match step {
        Step::Call(state, action) => Step::Call(ReconcileState::Confirming(state), action),
        Step::Done(result) => Step::Done(result),
    }
}

fn tell_enrolled(ctx: &Context, org: Organization) -> (step: Step<ReconcileState, Action, ()>)
    ensures
        step@ == reconcile_enrolled(ctx@, org@),
{
    if ctx.config.mail_enabled && !ctx.config.sso_org_auto_confirm {
        let mail = Mail::Enrolled { email: ctx.user.email.clone(), org_name: org.name };
        Step::Call(ReconcileState::MailingEnrolled, Action::SendMail(mail))
    } else {
        Step::Done(Ok(()))
    }
}

fn complain_unconfirmed(ctx: &Context, error: &SsoError) -> (action: Action)
    ensures
        action@ == ctx@.complaint(unconfirmed(), error@),
{
    ctx.complain("Failed to auto-confirm default SSO organization membership for ", error)
}

fn from_accepted(
    ctx: &Context,
    org: Organization,
    step: Step<ConfirmState, Action, ()>,
) -> (lifted: Step<ReconcileState, Action, ()>)
    ensures
        lifted@ == reconcile_of_accepted(ctx@, org@, step@),
{
    match step {
        Step::Call(state, action) => Step::Call(
            ReconcileState::ConfirmingAccepted { org, state },
            action,
        ),
        Step::Done(Ok(())) => tell_enrolled(ctx, org),
        Step::Done(Err(error)) => Step::Call(
            ReconcileState::ConfirmFailed { org },
            complain_unconfirmed(ctx, &error),
        ),
    }
}

fn from_new(ctx: &Context, step: Step<ConfirmState, Action, ()>) -> (lifted: Step<
    ReconcileState,
    Action,
    (),
>)
    ensures
        lifted@ == reconcile_of_new(ctx@, step@),
{
    match step {
        Step::Call(state, action) => Step::Call(ReconcileState::ConfirmingNew(state), action),
        Step::Done(Ok(())) => Step::Done(Ok(())),
        Step::Done(Err(error)) => Step::Call(
            ReconcileState::Noting,
            complain_unconfirmed(ctx, &error),
        ),
    }
}

fn with_found(ctx: &Context, org: Organization, found: Option<Membership>) -> (step: Step<
    ReconcileState,
    Action,
    (),
>)
    ensures
        step@ == reconcile_found(ctx@, org@, found.deep_view()),
{
    match found {
        Some(member) => match member.status {
            MembershipStatus::Accepted => from_confirm(
                auto_confirm_default_org_membership(ctx, org, member),
            ),
            MembershipStatus::Invited => {
                if ctx.config.sso_org_invite_auto_accept {
                    Step::Call(ReconcileState::Accepting { org }, Action::AcceptInvite(member))
                } else {
                    Step::Done(Ok(()))
                }
            },
            _ => Step::Done(Ok(())),
        },
        None => {
            if !ctx.config.sso_org_auto_provision {
                return Step::Done(Ok(()));
            }
            let member = Membership {
                uuid: ctx.fresh.membership.clone(),
                user_uuid: ctx.user.uuid.clone(),
                org_uuid: org.uuid.clone(),
                invited_by_email: Some(org.billing_email.clone()),
                access_all: false,
                akey: String::new(),
                status: if ctx.config.sso_org_invite_auto_accept {
                    MembershipStatus::Accepted
                } else {
                    MembershipStatus::Invited
                },
                atype: MembershipType::User,
            };
            let asked = member.clone();
            Step::Call(
                ReconcileState::CheckingPolicy { org, member },
                Action::CheckPolicy { member: asked, policy_use: PolicyUse::Join },
            )
        },
    }
}

fn with_logged(ctx: &Context, org: Organization, member: Membership) -> (step: Step<
    ReconcileState,
    Action,
    (),
>)
    ensures
        step@ == reconcile_logged(ctx@, org@, member@),
{
    if ctx.config.sso_org_auto_confirm {
        from_new(ctx, auto_confirm_default_org_membership(ctx, org, member))
    } else if ctx.config.mail_enabled {
        let email = ctx.user.email.clone();
        let mail = if member.status == MembershipStatus::Accepted {
            Mail::Enrolled { email, org_name: org.name }
        } else {
            Mail::Invite {
                email,
                org_uuid: org.uuid,
                member_uuid: member.uuid,
                org_name: org.name,
                invited_by_email: Some(org.billing_email),
            }
        };
        Step::Call(ReconcileState::MailingNotice, Action::SendMail(mail))
    } else {
        Step::Done(Ok(()))
    }
}

/// Brings the user's membership in the organization to where the settings want it: the
/// first step.
pub fn reconcile_default_org_membership(ctx: &Context) -> (step: Step<ReconcileState, Action, ()>)
    ensures
        step@ == reconcile_start(ctx@),
{
    if !ctx.config.has_to_do_with_org() {
        return Step::Done(Ok(()));
    }
    from_resolve(ctx, resolve_default_sso_org(ctx))
}

impl ReconcileState<String> {
    /// The step that follows a reply.
    pub fn advance(self, ctx: &Context, reply: Reply, now: UtcTime) -> (step: Step<
        ReconcileState,
        Action,
        (),
    >)
        ensures
            step@ == self@.after(ctx@, reply@, now),
    {
        match (self, reply) {
            (ReconcileState::Resolving(state), reply) => from_resolve(
                ctx,
                state.advance(ctx, reply, now),
            ),
            (ReconcileState::Finding { org }, Reply::Membership(found)) => with_found(
                ctx,
                org,
                found,
            ),
            (ReconcileState::Confirming(state), reply) => from_confirm(state.advance(ctx, reply)),
            (ReconcileState::Accepting { org }, Reply::Done(accepted)) => match accepted {
                Ok(()) => {
                    let find = find_user_membership(ctx, &org.uuid);
                    Step::Call(ReconcileState::FindingAccepted { org }, find)
                },
                Err(error) => Step::Done(Err(error)),
            },
            (ReconcileState::FindingAccepted { org }, Reply::Membership(found)) => match found {
                Some(member) => {
                    let confirm = auto_confirm_default_org_membership(ctx, org.clone(), member);
                    from_accepted(ctx, org, confirm)
                },
                None => tell_enrolled(ctx, org),
            },
            (ReconcileState::ConfirmingAccepted { org, state }, reply) => from_accepted(
                ctx,
                org,
                state.advance(ctx, reply),
            ),
            (ReconcileState::CheckingPolicy { org, member }, Reply::Done(allowed)) => {
                match allowed {
                    Ok(()) => {
                        let saved = member.clone();
                        Step::Call(
                            ReconcileState::Saving { org, member },
                            Action::SaveMembership(saved),
                        )
                    },
                    Err(error) => Step::Done(Err(error)),
                }
            },
            (ReconcileState::Saving { org, member }, Reply::Done(saved)) => match saved {
                Ok(()) => {
                    let noted = ctx.note(
                        EventType::OrganizationUserInvited,
                        &member.uuid,
                        &org.uuid,
                    );
                    Step::Call(ReconcileState::Logging { org, member }, noted)
                },
                Err(error) => Step::Call(
                    ReconcileState::Recovering { error },
                    find_user_membership(ctx, &org.uuid),
                ),
            },
            (ReconcileState::Recovering { error }, Reply::Membership(found)) => match found {
                Some(_) => Step::Done(Ok(())),
                None => Step::Done(Err(error)),
            },
            (ReconcileState::Logging { org, member }, Reply::Logged) => with_logged(
                ctx,
                org,
                member,
            ),
            (ReconcileState::ConfirmingNew(state), reply) => from_new(
                ctx,
                state.advance(ctx, reply),
            ),
            (ReconcileState::ConfirmFailed { org }, Reply::Logged) => tell_enrolled(ctx, org),
            (ReconcileState::MailingEnrolled, Reply::Done(sent)) => match sent {
                Ok(()) => Step::Done(Ok(())),
                Err(error) => Step::Call(
                    ReconcileState::Noting,
                    ctx.complain("Failed to send SSO default org enrollment mail to ", &error),
                ),
            },
            (ReconcileState::MailingNotice, Reply::Done(sent)) => match sent {
                Ok(()) => Step::Done(Ok(())),
                Err(error) => Step::Call(
                    ReconcileState::Noting,
                    ctx.complain("Failed to send SSO default org notification to ", &error),
                ),
            },
            (ReconcileState::Noting, Reply::Logged) => Step::Done(Ok(())),
            _ => Step::Done(Err(SsoError::UnexpectedReply)),
        }
    }

    /// The step that follows a reply at the present instant. Where the organization's key
    /// is to be sealed, it is, and the step is the one that follows that.
    pub fn resume(self, ctx: &Context, reply: Reply) -> (step: Step<ReconcileState, Action, ()>)
        ensures
            exists|now: UtcTime, sealed: Result<Seq<char>, SsoError<Seq<char>>>|
                self@.allows(ctx@, reply@, now, sealed) && step@ == #[trigger] self@.settled(
                    ctx@,
                    reply@,
                    now,
                    sealed,
                ),
            !(step@ matches Step::Call(_, Action::SealOrgKey { .. })),
    {
        let now = utc_now();
        proof {
            lemma_seals_one_org_key(self@, ctx@, reply@, now);
        }
        match self.advance(ctx, reply, now) {
            Step::Call(state, Action::SealOrgKey { org_key, public_key }) => {
                let sealed = seal(org_key, public_key);
                let ghost outcome = result_view(sealed);
                let step = state.advance(ctx, Reply::Sealed(sealed), now);
                assert(step@ == self@.settled(ctx@, reply@, now, outcome));
                step
            },
            step => {
                let ghost outcome: Result<Seq<char>, SsoError<Seq<char>>> = Err(SsoError::TooLong);
                assert(step@ == self@.settled(ctx@, reply@, now, outcome));
                step
            },
        }
    }
}

/// Where the settings want nothing of the organization, there is nothing to do. Else the
/// organization is searched for, step by step, and once it is known the user's membership
/// in it is looked up; where it cannot be found, the procedure fails as the search does.
pub proof fn law_org_comes_first(
    ctx: ContextView,
    state: ResolveState<Seq<char>>,
    reply: ReplyView,
    now: UtcTime,
)
    ensures
        reconcile_start(ctx) == if (ctx.config.sso_org_auto_provision
            || ctx.config.sso_org_invite_auto_accept || ctx.config.sso_org_auto_confirm
            || ctx.config.sso_org_bootstrap) {
            match resolve_start(ctx) {
                Step::Call(first, action) => ReconcileStep::Call(
                    ReconcileState::Resolving(first),
                    action,
                ),
                Step::Done(Err(error)) => ReconcileStep::Done(Err(error)),
                Step::Done(Ok(org)) => ReconcileStep::Call(
                    ReconcileState::Finding { org },
                    Action::FindMembership { user_uuid: ctx.user.uuid, org_uuid: org.uuid },
                ),
            }
        } else {
            ReconcileStep::Done(Ok(()))
        },
        ReconcileState::Resolving(state).after(ctx, reply, now) == match state.after(
            ctx,
            reply,
            now,
        ) {
            Step::Call(next, action) => ReconcileStep::Call(
                ReconcileState::Resolving(next),
                action,
            ),
            Step::Done(Err(error)) => ReconcileStep::Done(Err(error)),
            Step::Done(Ok(org)) => ReconcileStep::Call(
                ReconcileState::Finding { org },
                Action::FindMembership { user_uuid: ctx.user.uuid, org_uuid: org.uuid },
            ),
        },
{
}

/// What is done about a membership that there is. One that is accepted is confirmed, and the
/// login ends as that ends; an invitation is accepted where that is wanted; and any other is
/// left alone.
pub proof fn law_found_membership_moves_on(
    ctx: ContextView,
    org: Organization<Seq<char>>,
    member: Membership<Seq<char>>,
    state: ConfirmState<Seq<char>>,
    reply: ReplyView,
    now: UtcTime,
)
    ensures
        ({
            let step = (ReconcileState::Finding { org }).after(
                ctx,
                Reply::Membership(Some(member)),
                now,
            );
            match member.status {
                MembershipStatus::Confirmed => step == ReconcileStep::Done(Ok(())),
                MembershipStatus::Other(_) => step == ReconcileStep::Done(Ok(())),
                MembershipStatus::Invited => step == if ctx.config.sso_org_invite_auto_accept {
                    ReconcileStep::Call(
                        ReconcileState::Accepting { org },
                        Action::AcceptInvite(member),
                    )
                } else {
                    ReconcileStep::Done(Ok(()))
                },
                MembershipStatus::Accepted => step == match confirm_start(ctx, org, member) {
                    Step::Call(first, action) => ReconcileStep::Call(
                        ReconcileState::Confirming(first),
                        action,
                    ),
                    Step::Done(result) => ReconcileStep::Done(result),
                },
            }
        }),
        ReconcileState::Confirming(state).after(ctx, reply, now) == match state.after(ctx, reply) {
            Step::Call(next, action) => ReconcileStep::Call(
                ReconcileState::Confirming(next),
                action,
            ),
            Step::Done(result) => ReconcileStep::Done(result),
        },
{
}

/// What is done about a membership that there is not. Where users are not provisioned,
/// nothing. Where they are, an ordinary one is made, which is accepted only where
/// invitations are, and is an invitation else, whatever the other settings are. The policies
/// are asked about just this one, then it is written down, and then it is noted.
pub proof fn law_missing_membership_is_made(
    ctx: ContextView,
    org: Organization<Seq<char>>,
    member: Membership<Seq<char>>,
    now: UtcTime,
)
    ensures
        ({
            let made = Membership {
                uuid: ctx.fresh.membership,
                user_uuid: ctx.user.uuid,
                org_uuid: org.uuid,
                invited_by_email: Some(org.billing_email),
                access_all: false,
                akey: Seq::empty(),
                status: if ctx.config.sso_org_invite_auto_accept {
                    MembershipStatus::Accepted
                } else {
                    MembershipStatus::Invited
                },
                atype: MembershipType::User,
            };
            (ReconcileState::Finding { org }).after(ctx, Reply::Membership(None), now)
                == if ctx.config.sso_org_auto_provision {
                ReconcileStep::Call(
                    ReconcileState::CheckingPolicy { org, member: made },
                    Action::CheckPolicy { member: made, policy_use: PolicyUse::Join },
                )
            } else {
                ReconcileStep::Done(Ok(()))
            }
        }),
        (ReconcileState::CheckingPolicy { org, member }).after(ctx, Reply::Done(Ok(())), now)
            == ReconcileStep::Call(
            ReconcileState::Saving { org, member },
            Action::SaveMembership(member),
        ),
        (ReconcileState::Saving { org, member }).after(ctx, Reply::Done(Ok(())), now)
            == ReconcileStep::Call(
            ReconcileState::Logging { org, member },
            Action::LogEvent {
                event: EventType::OrganizationUserInvited,
                member_uuid: member.uuid,
                org_uuid: org.uuid,
                user_uuid: ctx.user.uuid,
                device_type: ctx.device.atype,
                ip: ctx.ip,
            },
        ),
{
}

/// What follows once a new membership was noted. Where memberships are confirmed, it is, as
/// far as it goes, and the login ends well either way. Where they are not, the user is told
/// by mail, if mail can be sent: that the membership is there, or that there is an
/// invitation.
pub proof fn law_new_membership_is_confirmed_or_told(
    ctx: ContextView,
    org: Organization<Seq<char>>,
    member: Membership<Seq<char>>,
    state: ConfirmState<Seq<char>>,
    reply: ReplyView,
    now: UtcTime,
)
    ensures
        ({
            let step = (ReconcileState::Logging { org, member }).after(ctx, Reply::Logged, now);
            if ctx.config.sso_org_auto_confirm {
                step == match confirm_start(ctx, org, member) {
                    Step::Call(first, action) => ReconcileStep::Call(
                        ReconcileState::ConfirmingNew(first),
                        action,
                    ),
                    Step::Done(Ok(_)) => ReconcileStep::Done(Ok(())),
                    Step::Done(Err(error)) => ReconcileStep::Call(
                        ReconcileState::Noting,
                        unconfirmed_note(ctx, error),
                    ),
                }
            } else if !ctx.config.mail_enabled {
                step == ReconcileStep::Done(Ok(()))
            } else if member.status == MembershipStatus::Accepted {
                step == ReconcileStep::Call(
                    ReconcileState::MailingNotice,
                    Action::SendMail(Mail::Enrolled { email: ctx.user.email, org_name: org.name }),
                )
            } else {
                step == ReconcileStep::Call(
                    ReconcileState::MailingNotice,
                    Action::SendMail(
                        Mail::Invite {
                            email: ctx.user.email,
                            org_uuid: org.uuid,
                            member_uuid: member.uuid,
                            org_name: org.name,
                            invited_by_email: Some(org.billing_email),
                        },
                    ),
                )
            }
        }),
        ReconcileState::ConfirmingNew(state).after(ctx, reply, now) == match state.after(
            ctx,
            reply,
        ) {
            Step::Call(next, action) => ReconcileStep::Call(
                ReconcileState::ConfirmingNew(next),
                action,
            ),
            Step::Done(Ok(_)) => ReconcileStep::Done(Ok(())),
            Step::Done(Err(error)) => ReconcileStep::Call(
                ReconcileState::Noting,
                unconfirmed_note(ctx, error),
            ),
        },
{
}

/// What is noted where the user's membership could not be confirmed.
pub open spec fn unconfirmed_note(ctx: ContextView, error: SsoError<Seq<char>>) -> ActionView {
    Action::LogError {
        message: "Failed to auto-confirm default SSO organization membership for "@ + ctx.user.email
            + ": "@ + error.text(),
    }
}

/// What follows once an invitation was accepted: the membership is looked up again, and
/// confirmed as it is found; where that fails, it is noted. Then the user is told by mail
/// that the invitation was accepted, if mail can be sent and memberships are not confirmed.
pub proof fn law_accepted_invitation_goes_on(
    ctx: ContextView,
    org: Organization<Seq<char>>,
    found: Option<Membership<Seq<char>>>,
    state: ConfirmState<Seq<char>>,
    reply: ReplyView,
    now: UtcTime,
)
    ensures
        ({
            let told = if ctx.config.mail_enabled && !ctx.config.sso_org_auto_confirm {
                ReconcileStep::Call(
                    ReconcileState::MailingEnrolled,
                    Action::SendMail(Mail::Enrolled { email: ctx.user.email, org_name: org.name }),
                )
            } else {
                ReconcileStep::Done(Ok(()))
            };
            &&& (ReconcileState::Accepting { org }).after(ctx, Reply::Done(Ok(())), now)
                == ReconcileStep::Call(
                ReconcileState::FindingAccepted { org },
                Action::FindMembership { user_uuid: ctx.user.uuid, org_uuid: org.uuid },
            )
            &&& (ReconcileState::FindingAccepted { org }).after(ctx, Reply::Membership(found), now)
                == match found {
                None => told,
                Some(member) => match confirm_start(ctx, org, member) {
                    Step::Call(first, action) => ReconcileStep::Call(
                        ReconcileState::ConfirmingAccepted { org, state: first },
                        action,
                    ),
                    Step::Done(Ok(_)) => told,
                    Step::Done(Err(error)) => ReconcileStep::Call(
                        ReconcileState::ConfirmFailed { org },
                        unconfirmed_note(ctx, error),
                    ),
                },
            }
            &&& (ReconcileState::ConfirmingAccepted { org, state }).after(ctx, reply, now)
                == match state.after(ctx, reply) {
                Step::Call(next, action) => ReconcileStep::Call(
                    ReconcileState::ConfirmingAccepted { org, state: next },
                    action,
                ),
                Step::Done(Ok(_)) => told,
                Step::Done(Err(error)) => ReconcileStep::Call(
                    ReconcileState::ConfirmFailed { org },
                    unconfirmed_note(ctx, error),
                ),
            }
            &&& (ReconcileState::ConfirmFailed { org }).after(ctx, Reply::Logged, now) == told
        }),
{
}

/// What the mails and notes at the end come to: the procedure ends well, and a mail that
/// could not be sent is noted before, in the words for its kind.
pub proof fn law_last_mail_ends_it(
    ctx: ContextView,
    error: SsoError<Seq<char>>,
    now: UtcTime,
)
    ensures
        ReconcileState::MailingEnrolled.after(ctx, Reply::Done(Ok(())), now) == ReconcileStep::Done(
            Ok(()),
        ),
        ReconcileState::MailingNotice.after(ctx, Reply::Done(Ok(())), now) == ReconcileStep::Done(
            Ok(()),
        ),
        ReconcileState::Noting.after(ctx, Reply::Logged, now) == ReconcileStep::Done(Ok(())),
        ReconcileState::MailingEnrolled.after(ctx, Reply::Done(Err(error)), now)
            == ReconcileStep::Call(
            ReconcileState::Noting,
            Action::LogError {
                message: "Failed to send SSO default org enrollment mail to "@ + ctx.user.email
                    + ": "@ + error.text(),
            },
        ),
        ReconcileState::MailingNotice.after(ctx, Reply::Done(Err(error)), now)
            == ReconcileStep::Call(
            ReconcileState::Noting,
            Action::LogError {
                message: "Failed to send SSO default org notification to "@ + ctx.user.email + ": "@
                    + error.text(),
            },
        ),
{
}

/// An invitation that cannot be accepted, and policies that refuse a new membership, end the
/// procedure with that failure. A new membership that cannot be written down has the user's
/// looked up again, and the procedure ends well if there is one, and else with that failure.
/// A reply to something else ends it too.
pub proof fn law_membership_fails_as_told(
    ctx: ContextView,
    state: ReconcileState<Seq<char>>,
    reply: ReplyView,
    now: UtcTime,
)
    ensures
        ({
            let step = state.after(ctx, reply, now);
            match (state, reply) {
                (ReconcileState::Resolving(_), _) => true,
                (ReconcileState::Confirming(_), _) => true,
                (ReconcileState::ConfirmingAccepted { .. }, _) => true,
                (ReconcileState::ConfirmingNew(_), _) => true,
                (ReconcileState::Finding { .. }, Reply::Membership(_)) => true,
                (ReconcileState::FindingAccepted { .. }, Reply::Membership(_)) => true,
                (ReconcileState::Accepting { .. }, Reply::Done(Ok(_))) => true,
                (ReconcileState::Accepting { .. }, Reply::Done(Err(error))) => step
                    == ReconcileStep::Done(Err(error)),
                (ReconcileState::CheckingPolicy { .. }, Reply::Done(Ok(_))) => true,
                (ReconcileState::CheckingPolicy { .. }, Reply::Done(Err(error))) => step
                    == ReconcileStep::Done(Err(error)),
                (ReconcileState::Saving { .. }, Reply::Done(Ok(_))) => true,
                (ReconcileState::Saving { org, .. }, Reply::Done(Err(error))) => step
                    == ReconcileStep::Call(
                    ReconcileState::Recovering { error },
                    Action::FindMembership { user_uuid: ctx.user.uuid, org_uuid: org.uuid },
                ),
                (ReconcileState::Recovering { .. }, Reply::Membership(Some(_))) => step
                    == ReconcileStep::Done(Ok(())),
                (ReconcileState::Recovering { error }, Reply::Membership(None)) => step
                    == ReconcileStep::Done(Err(error)),
                (ReconcileState::Logging { .. }, Reply::Logged) => true,
                (ReconcileState::ConfirmFailed { .. }, Reply::Logged) => true,
                (ReconcileState::MailingEnrolled, Reply::Done(_)) => true,
                (ReconcileState::MailingNotice, Reply::Done(_)) => true,
                (ReconcileState::Noting, Reply::Logged) => true,
                _ => step == ReconcileStep::Done(Err(SsoError::UnexpectedReply)),
            }
        }),
{
}

/// The library's own part of a step: where a key is to be sealed, what goes on is the state
/// that has asked for it, with what can come of sealing just this key under just that public
/// key; and else the step is the one that follows the reply.
pub proof fn law_sealing_is_the_librarys(
    state: ReconcileState<Seq<char>>,
    ctx: ContextView,
    reply: ReplyView,
    now: UtcTime,
    sealed: Result<Seq<char>, SsoError<Seq<char>>>,
)
    ensures
        match state.after(ctx, reply, now) {
            Step::Call(next, Action::SealOrgKey { org_key, public_key }) => {
                &&& state.settled(ctx, reply, now, sealed) == next.after(
                    ctx,
                    Reply::Sealed(sealed),
                    now,
                )
                &&& state.allows(ctx, reply, now, sealed) ==> if encode_utf8(public_key).len()
                    <= usize::MAX / 8 {
                    sealing_outcome(org_key, public_key, sealed)
                } else {
                    sealed matches Err(SsoError::TooLong)
                }
            },
            step => state.settled(ctx, reply, now, sealed) == step,
        },
{
}

} // verus!
