//! How the library and the server around it take turns: the library asks for an action,
//! the server performs it and replies, and the library goes on from there.
use vstd::prelude::*;

use crate::config::SsoConfig;
use crate::error::{result_view, SsoError};
use crate::records::{Collection, Device, Membership, Organization, SsoUser, User};
use crate::text::{joined, joined3};

verus! {

/// Where a procedure stands: it waits in the state `M` for the reply to an action, or it
/// has come to its end.
#[derive(Debug, PartialEq, Eq)]
pub enum Step<M, A, T, S = String> {
    Call(M, A),
    Done(Result<T, SsoError<S>>),
}

impl<M: View, A: View, T: View> View for Step<M, A, T, String> {
    type V = Step<M::V, A::V, T::V, Seq<char>>;

    open spec fn view(&self) -> Step<M::V, A::V, T::V, Seq<char>> {
        match self {
            Step::Call(state, action) => Step::Call(state@, action@),
            Step::Done(result) => Step::Done(result_view(*result)),
        }
    }
}

/// What a policy is asked about: that a user joins an organization, or that the
/// membership is confirmed.
#[derive(Clone, Copy, Debug, PartialEq, Eq, Structural)]
pub enum PolicyUse {
    Join,
    Confirm,
}

/// What is noted in the log of an organization.
#[derive(Clone, Copy, Debug, PartialEq, Eq, Structural)]
pub enum EventType {
    OrganizationUserInvited,
    OrganizationUserConfirmed,
}

/// A mail to the user.
#[derive(Debug, PartialEq, Eq)]
pub enum Mail<S = String> {
    /// The membership is confirmed.
    InviteConfirmed { email: S, org_name: S },
    /// The user has become a member.
    Enrolled { email: S, org_name: S },
    /// The user is invited to become a member.
    Invite { email: S, org_uuid: S, member_uuid: S, org_name: S, invited_by_email: Option<S> },
}

/// What the server is asked to do. `B` is a string of bytes.
#[derive(Debug, PartialEq, Eq)]
pub enum Action<S = String, B = Vec<u8>> {
    FindOrganization { uuid: S },
    SaveOrganization(Organization<S>),
    FindUserByMail { email: S },
    SaveUser(User<S>),
    /// Find the user with the email address, and the user's link to the provider.
    FindSsoUserByMail { email: S },
    SaveSsoUser(SsoUser<S>),
    FindMembership { user_uuid: S, org_uuid: S },
    SaveMembership(Membership<S>),
    /// Accept the invitation on behalf of the user.
    AcceptInvite(Membership<S>),
    FindCollections { org_uuid: S },
    SaveCollection(Collection<S>),
    /// Ask the policies of the organization whether the membership may be.
    CheckPolicy { member: Membership<S>, policy_use: PolicyUse },
    /// Note the event, and from which device and address it came about.
    LogEvent {
        event: EventType,
        member_uuid: S,
        org_uuid: S,
        user_uuid: S,
        device_type: i32,
        ip: S,
    },
    /// Write the message to the log of the server, as an error that ends nothing.
    LogError { message: S },
    SendMail(Mail<S>),
    /// Seal the organization's key for the user. The library does this itself, between
    /// two actions of the server.
    SealOrgKey { org_key: B, public_key: S },
    /// Delete the login with the state.
    DeleteSsoAuth { state: S },
}

/// What the server replies. `C` is a list of collections.
#[derive(Debug, PartialEq, Eq)]
pub enum Reply<S = String, C = Vec<Collection<S>>> {
    Organization(Option<Organization<S>>),
    User(Option<User<S>>),
    /// Nothing where there is no such user; the user's link, if there is one.
    SsoUser(Option<Option<SsoUser<S>>>),
    Membership(Option<Membership<S>>),
    Collections(C),
    /// The event or the error is noted; that it could not be is of no consequence.
    Logged,
    /// The organization's key, sealed.
    Sealed(Result<S, SsoError<S>>),
    /// An action that gives nothing back is done, or has failed.
    Done(Result<(), SsoError<S>>),
}

/// Identifiers that no record has yet.
#[derive(Debug, PartialEq, Eq)]
pub struct FreshIds<S = String> {
    pub bot_user: S,
    pub bot_membership: S,
    pub collection: S,
    pub membership: S,
}

/// What stays the same while a procedure runs: the settings, the user who logs in, with
/// what device and from what address, and the identifiers for the records that it may have
/// to make.
#[derive(Debug, PartialEq, Eq)]
pub struct Context<S = String> {
    pub config: SsoConfig<S>,
    pub user: User<S>,
    pub device: Device<S>,
    pub ip: S,
    pub fresh: FreshIds<S>,
}

impl View for Mail<String> {
    type V = Mail<Seq<char>>;

    open spec fn view(&self) -> Mail<Seq<char>> {
        match self {
            Mail::InviteConfirmed { email, org_name } => Mail::InviteConfirmed {
                email: email@,
                org_name: org_name@,
            },
            Mail::Enrolled { email, org_name } => Mail::Enrolled {
                email: email@,
                org_name: org_name@,
            },
            Mail::Invite { email, org_uuid, member_uuid, org_name, invited_by_email } => {
                Mail::Invite {
                    email: email@,
                    org_uuid: org_uuid@,
                    member_uuid: member_uuid@,
                    org_name: org_name@,
                    invited_by_email: invited_by_email.deep_view(),
                }
            },
        }
    }
}

impl View for Action<String, Vec<u8>> {
    type V = Action<Seq<char>, Seq<u8>>;

    open spec fn view(&self) -> Action<Seq<char>, Seq<u8>> {
        match self {
            Action::FindOrganization { uuid } => Action::FindOrganization { uuid: uuid@ },
            Action::SaveOrganization(org) => Action::SaveOrganization(org@),
            Action::FindUserByMail { email } => Action::FindUserByMail { email: email@ },
            Action::SaveUser(user) => Action::SaveUser(user@),
            Action::FindSsoUserByMail { email } => Action::FindSsoUserByMail { email: email@ },
            Action::SaveSsoUser(link) => Action::SaveSsoUser(link@),
            Action::FindMembership { user_uuid, org_uuid } => Action::FindMembership {
                user_uuid: user_uuid@,
                org_uuid: org_uuid@,
            },
            Action::SaveMembership(member) => Action::SaveMembership(member@),
            Action::AcceptInvite(member) => Action::AcceptInvite(member@),
            Action::FindCollections { org_uuid } => Action::FindCollections { org_uuid: org_uuid@ },
            Action::SaveCollection(collection) => Action::SaveCollection(collection@),
            Action::CheckPolicy { member, policy_use } => Action::CheckPolicy {
                member: member@,
                policy_use: *policy_use,
            },
            Action::LogEvent { event, member_uuid, org_uuid, user_uuid, device_type, ip } => {
                Action::LogEvent {
                    event: *event,
                    member_uuid: member_uuid@,
                    org_uuid: org_uuid@,
                    user_uuid: user_uuid@,
                    device_type: *device_type,
                    ip: ip@,
                }
            },
            Action::LogError { message } => Action::LogError { message: message@ },
            Action::SendMail(mail) => Action::SendMail(mail@),
            Action::SealOrgKey { org_key, public_key } => Action::SealOrgKey {
                org_key: org_key@,
                public_key: public_key@,
            },
            Action::DeleteSsoAuth { state } => Action::DeleteSsoAuth { state: state@ },
        }
    }
}

impl View for Reply<String, Vec<Collection>> {
    type V = Reply<Seq<char>, Seq<Collection<Seq<char>>>>;

    open spec fn view(&self) -> Reply<Seq<char>, Seq<Collection<Seq<char>>>> {
        match self {
            Reply::Organization(org) => Reply::Organization(org.deep_view()),
            Reply::User(user) => Reply::User(user.deep_view()),
            Reply::SsoUser(link) => Reply::SsoUser(link.deep_view()),
            Reply::Membership(member) => Reply::Membership(member.deep_view()),
            Reply::Collections(collections) => Reply::Collections(collections.deep_view()),
            Reply::Logged => Reply::Logged,
            Reply::Sealed(sealed) => Reply::Sealed(result_view(*sealed)),
            Reply::Done(result) => Reply::Done(result_view(*result)),
        }
    }
}

impl View for FreshIds<String> {
    type V = FreshIds<Seq<char>>;

    open spec fn view(&self) -> FreshIds<Seq<char>> {
        FreshIds {
            bot_user: self.bot_user@,
            bot_membership: self.bot_membership@,
            collection: self.collection@,
            membership: self.membership@,
        }
    }
}

impl View for Context<String> {
    type V = Context<Seq<char>>;

    open spec fn view(&self) -> Context<Seq<char>> {
        Context {
            config: self.config@,
            user: self.user@,
            device: self.device@,
            ip: self.ip@,
            fresh: self.fresh@,
        }
    }
}

/// An action, as specifications see it.
pub type ActionView = Action<Seq<char>, Seq<u8>>;

/// A reply, as specifications see it.
pub type ReplyView = Reply<Seq<char>, Seq<Collection<Seq<char>>>>;

/// The settings and the user, as specifications see them.
pub type ContextView = Context<Seq<char>>;

impl Context<Seq<char>> {
    /// The event that befalls the user's membership, as it is noted.
    pub open spec fn event(
        self,
        event: EventType,
        member_uuid: Seq<char>,
        org_uuid: Seq<char>,
    ) -> ActionView {
        Action::LogEvent {
            event,
            member_uuid,
            org_uuid,
            user_uuid: self.user.uuid,
            device_type: self.device.atype,
            ip: self.ip,
        }
    }

    /// The error that is written to the log where something could not be done for the user.
    pub open spec fn complaint(
        self,
        undone: Seq<char>,
        error: SsoError<Seq<char>>,
    ) -> ActionView {
        Action::LogError { message: undone + self.user.email + ": "@ + error.text() }
    }
}

impl Context<String> {
    /// The event that befalls the user's membership, as it is noted.
    pub(crate) fn note(&self, event: EventType, member_uuid: &String, org_uuid: &String) -> (action:
        Action)
        ensures
            action@ == self@.event(event, member_uuid@, org_uuid@),
    {
        Action::LogEvent {
            event,
            member_uuid: member_uuid.clone(),
            org_uuid: org_uuid.clone(),
            user_uuid: self.user.uuid.clone(),
            device_type: self.device.atype,
            ip: self.ip.clone(),
        }
    }

    /// The error that is written to the log where something could not be done for the user.
    pub(crate) fn complain(&self, undone: &str, error: &SsoError) -> (action: Action)
        ensures
            action@ == self@.complaint(undone@, error@),
    {
        let start = joined3(undone, &self.user.email, ": ");
        Action::LogError { message: joined(&start, &error.message()) }
    }
}

/// A step of a procedure with the states `M` and the result `T`, as specifications see it.
pub type StepView<M, T> = Step<M, ActionView, T, Seq<char>>;

/// What is noted of an event says whose membership in which organization it befell, by
/// which device and from which address; what is noted of an error says what could not be
/// done for whom, and why.
pub proof fn law_notes_are_complete(
    ctx: ContextView,
    event: EventType,
    member_uuid: Seq<char>,
    org_uuid: Seq<char>,
    undone: Seq<char>,
    error: SsoError<Seq<char>>,
)
    ensures
        ctx.event(event, member_uuid, org_uuid) == (ActionView::LogEvent {
            event,
            member_uuid,
            org_uuid,
            user_uuid: ctx.user.uuid,
            device_type: ctx.device.atype,
            ip: ctx.ip,
        }),
        ctx.complaint(undone, error) == (ActionView::LogError {
            message: undone + ctx.user.email + ": "@ + error.text(),
        }),
{
}

} // verus!
