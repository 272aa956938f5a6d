//! The confirmation of a membership: the organization's key is sealed for the member.
use vstd::prelude::*;
use vstd::utf8::encode_utf8;

use crate::base64::{base64_decode, base64_decoded, decodable, decoder_view};
use crate::error::SsoError;
use crate::protocol::{
    Action, Context, ContextView, EventType, Mail, PolicyUse, Reply, ReplyView, Step, StepView,
};
use crate::records::{Membership, MembershipStatus, Organization};

verus! {

/// How far a confirmation has come. From the sealing on, the member is the one to be.
#[derive(Debug, PartialEq, Eq)]
pub enum ConfirmState<S = String> {
    /// The organization's key is sealed.
    Sealing { org: Organization<S>, member: Membership<S> },
    /// The policies are asked.
    CheckingPolicy { org: Organization<S>, member: Membership<S> },
    /// The confirmation is noted.
    Logging { org: Organization<S>, member: Membership<S> },
    /// The user is told.
    Mailing { member: Membership<S> },
    /// That failed; it is noted.
    MailFailed { member: Membership<S> },
    /// The membership is written down.
    Saving,
}

impl View for ConfirmState<String> {
    type V = ConfirmState<Seq<char>>;

    open spec fn view(&self) -> ConfirmState<Seq<char>> {
        match self {
            ConfirmState::Sealing { org, member } => ConfirmState::Sealing {
                org: org@,
                member: member@,
            },
            ConfirmState::CheckingPolicy { org, member } => ConfirmState::CheckingPolicy {
                org: org@,
                member: member@,
            },
            ConfirmState::Logging { org, member } => ConfirmState::Logging {
                org: org@,
                member: member@,
            },
            ConfirmState::Mailing { member } => ConfirmState::Mailing { member: member@ },
            ConfirmState::MailFailed { member } => ConfirmState::MailFailed { member: member@ },
            ConfirmState::Saving => ConfirmState::Saving,
        }
    }
}

/// The bytes have the length of an organization key.
pub open spec fn is_org_key(bytes: Seq<u8>) -> bool {
    bytes.len() == 32 || bytes.len() == 64
}

/// What is noted where the mail on a confirmation could not be sent.
pub open spec fn confirmation_unsent() -> Seq<char> {
    "Failed to send SSO default org confirmation mail to "@
}

/// The membership is one to be confirmed.
pub open spec fn to_be_confirmed(ctx: ContextView, member: Membership<Seq<char>>) -> bool {
    ctx.config.sso_org_auto_confirm && member.status == MembershipStatus::Accepted
}

/// The step in which the organization's key is sealed, given the user's public key and
/// what the base64 decoder made of the configured key.
pub open spec fn confirm_seal(
    org: Organization<Seq<char>>,
    member: Membership<Seq<char>>,
    public_key: Seq<char>,
    decoded: Result<Seq<u8>, Seq<char>>,
) -> StepView<ConfirmState<Seq<char>>, ()> {
    match decoded {
        Ok(org_key) => if is_org_key(org_key) {
            Step::Call(
                ConfirmState::Sealing { org, member },
                Action::SealOrgKey { org_key, public_key },
            )
        } else {
            Step::Done(Err(SsoError::AutoConfirmKeyLength))
        },
        Err(complaint) => Step::Done(Err(SsoError::AutoConfirmKeyNotBase64(complaint))),
    }
}

/// The first step of a confirmation. There is none to take where the membership is not
/// one to be confirmed.
pub open spec fn confirm_start(
    ctx: ContextView,
    org: Organization<Seq<char>>,
    member: Membership<Seq<char>>,
) -> StepView<ConfirmState<Seq<char>>, ()> {
    if !to_be_confirmed(ctx, member) {
        Step::Done(Ok(()))
    } else {
        match (ctx.config.sso_org_auto_confirm_key, ctx.user.public_key) {
            (None, _) => Step::Done(Err(SsoError::MissingAutoConfirmKey)),
            (Some(_), None) => Step::Done(Err(SsoError::MissingPublicKey(ctx.user.email))),
            (Some(key), Some(public_key)) => if decodable(encode_utf8(key)) {
                confirm_seal(org, member, public_key, base64_decoded(encode_utf8(key)))
            } else {
                Step::Done(Err(SsoError::TooLong))
            },
        }
    }
}

impl ConfirmState<Seq<char>> {
    /// The step that follows a reply.
    pub open spec fn after(self, ctx: ContextView, reply: ReplyView) -> StepView<
        ConfirmState<Seq<char>>,
        (),
    > {
        match (self, reply) {
            (ConfirmState::Sealing { org, member }, Reply::Sealed(Ok(akey))) => {
                let confirmed = member.confirmed_with(akey);
                Step::Call(
                    ConfirmState::CheckingPolicy { org, member: confirmed },
                    Action::CheckPolicy { member: confirmed, policy_use: PolicyUse::Confirm },
                )
            },
            (ConfirmState::Sealing { .. }, Reply::Sealed(Err(error))) => Step::Done(Err(error)),
            (ConfirmState::CheckingPolicy { org, member }, Reply::Done(Ok(_))) => Step::Call(
                ConfirmState::Logging { org, member },
                ctx.event(EventType::OrganizationUserConfirmed, member.uuid, org.uuid),
            ),
            (ConfirmState::CheckingPolicy { .. }, Reply::Done(Err(error))) => {
                Step::Done(Err(error))
            },
            (ConfirmState::Logging { org, member }, Reply::Logged) => {
                if ctx.config.mail_enabled {
                    Step::Call(
                        ConfirmState::Mailing { member },
                        Action::SendMail(
                            Mail::InviteConfirmed { email: ctx.user.email, org_name: org.name },
                        ),
                    )
                } else {
                    Step::Call(ConfirmState::Saving, Action::SaveMembership(member))
                }
            },
            (ConfirmState::Mailing { member }, Reply::Done(Ok(_))) => Step::Call(
                ConfirmState::Saving,
                Action::SaveMembership(member),
            ),
            (ConfirmState::Mailing { member }, Reply::Done(Err(error))) => Step::Call(
                ConfirmState::MailFailed { member },
                ctx.complaint(confirmation_unsent(), error),
            ),
            (ConfirmState::MailFailed { member }, Reply::Logged) => Step::Call(
                ConfirmState::Saving,
                Action::SaveMembership(member),
            ),
            (ConfirmState::Saving, Reply::Done(result)) => Step::Done(result),
            _ => Step::Done(Err(SsoError::UnexpectedReply)),
        }
    }
}

/// The step in which the organization's key is sealed, given what the base64 decoder
/// made of the configured key.
pub fn seal_for_confirmation(
    org: Organization,
    member: Membership,
    public_key: &String,
    decoded: Result<Vec<u8>, String>,
) -> (step: Step<ConfirmState, Action, ()>)
    ensures
        step@ == confirm_seal(org@, member@, public_key@, decoder_view(decoded)),
{
    match decoded {
        Ok(org_key) => {
            if org_key.len() == 32 || org_key.len() == 64 {
                Step::Call(
                    ConfirmState::Sealing { org, member },
                    Action::SealOrgKey { org_key, public_key: public_key.clone() },
                )
            } else {
                Step::Done(Err(SsoError::AutoConfirmKeyLength))
            }
        },
        Err(complaint) => Step::Done(Err(SsoError::AutoConfirmKeyNotBase64(complaint))),
    }
}

/// Confirms an accepted membership, where that is configured: the first step.
pub fn auto_confirm_default_org_membership(
    ctx: &Context,
    org: Organization,
    member: Membership,
) -> (step: Step<ConfirmState, Action, ()>)
    ensures
        step@ == confirm_start(ctx@, org@, member@),
{
    if !ctx.config.sso_org_auto_confirm || member.status != MembershipStatus::Accepted {
        return Step::Done(Ok(()));
    }
    let key = match &ctx.config.sso_org_auto_confirm_key {
        Some(key) => key,
        None => {
            return Step::Done(Err(SsoError::MissingAutoConfirmKey));
        },
    };
    let public_key = match &ctx.user.public_key {
        Some(public_key) => public_key,
        None => {
            return Step::Done(Err(SsoError::MissingPublicKey(ctx.user.email.clone())));
        },
    };
    let key = key.as_str().as_bytes();
    if key.len() > usize::MAX / 8 {
        return Step::Done(Err(SsoError::TooLong));
    }
    seal_for_confirmation(org, member, public_key, base64_decode(key))
}

impl ConfirmState<String> {
    /// The step that follows a reply.
    pub fn advance(self, ctx: &Context, reply: Reply) -> (step: Step<ConfirmState, Action, ()>)
        ensures
            step@ == self@.after(ctx@, reply@),
    {
        match (self, reply) {
            (ConfirmState::Sealing { org, member }, Reply::Sealed(sealed)) => match sealed {
                Ok(akey) => {
                    let mut member = member;
                    member.akey = akey;
                    member.status = MembershipStatus::Confirmed;
                    let asked = member.clone();
                    Step::Call(
                        ConfirmState::CheckingPolicy { org, member },
                        Action::CheckPolicy { member: asked, policy_use: PolicyUse::Confirm },
                    )
                },
                Err(error) => Step::Done(Err(error)),
            },
            (ConfirmState::CheckingPolicy { org, member }, Reply::Done(allowed)) => match allowed {
                Ok(()) => {
                    let noted = ctx.note(
                        EventType::OrganizationUserConfirmed,
                        &member.uuid,
                        &org.uuid,
                    );
                    Step::Call(ConfirmState::Logging { org, member }, noted)
                },
                Err(error) => Step::Done(Err(error)),
            },
            (ConfirmState::Logging { org, member }, Reply::Logged) => {
                if ctx.config.mail_enabled {
                    Step::Call(
                        ConfirmState::Mailing { member },
                        Action::SendMail(
                            Mail::InviteConfirmed {
                                email: ctx.user.email.clone(),
                                org_name: org.name,
                            },
                        ),
                    )
                } else {
                    Step::Call(ConfirmState::Saving, Action::SaveMembership(member))
                }
            },
            (ConfirmState::Mailing { member }, Reply::Done(sent)) => match sent {
                Ok(()) => Step::Call(ConfirmState::Saving, Action::SaveMembership(member)),
                Err(error) => {
                    let complaint = ctx.complain(
                        "Failed to send SSO default org confirmation mail to ",
                        &error,
                    );
                    Step::Call(ConfirmState::MailFailed { member }, complaint)
                },
            },
            (ConfirmState::MailFailed { member }, Reply::Logged) => Step::Call(
                ConfirmState::Saving,
                Action::SaveMembership(member),
            ),
            (ConfirmState::Saving, Reply::Done(result)) => Step::Done(result),
            _ => Step::Done(Err(SsoError::UnexpectedReply)),
        }
    }
}

/// A step of a confirmation, as specifications see it.
pub type ConfirmStep = StepView<ConfirmState<Seq<char>>, ()>;

/// What a confirmation takes. There is nothing to confirm where that is not configured or
/// the membership is not accepted. Else there must be a configured key and a public key of
/// the user's, and the configured key must be base64 of thirty-two or sixty-four bytes: just
/// these bytes are then sealed under just that public key.
pub proof fn law_confirmation_seals_the_configured_key(
    ctx: ContextView,
    org: Organization<Seq<char>>,
    member: Membership<Seq<char>>,
    key: Seq<char>,
    public_key: Seq<char>,
)
    ensures
        !ctx.config.sso_org_auto_confirm || member.status != MembershipStatus::Accepted
            ==> confirm_start(ctx, org, member) == ConfirmStep::Done(Ok(())),
        ctx.config.sso_org_auto_confirm && member.status == MembershipStatus::Accepted ==> {
            let step = confirm_start(ctx, org, member);
            &&& ctx.config.sso_org_auto_confirm_key is None ==> step == ConfirmStep::Done(
                Err(SsoError::MissingAutoConfirmKey),
            )
            &&& ctx.config.sso_org_auto_confirm_key is Some && ctx.user.public_key is None ==> step
                == ConfirmStep::Done(Err(SsoError::MissingPublicKey(ctx.user.email)))
            &&& ctx.config.sso_org_auto_confirm_key == Some(key) && ctx.user.public_key == Some(
                public_key,
            ) ==> if encode_utf8(key).len() > usize::MAX / 8 {
                step == ConfirmStep::Done(Err(SsoError::TooLong))
            } else {
                match base64_decoded(encode_utf8(key)) {
                    Err(complaint) => step == ConfirmStep::Done(
                        Err(SsoError::AutoConfirmKeyNotBase64(complaint)),
                    ),
                    Ok(org_key) => if org_key.len() == 32 || org_key.len() == 64 {
                        step == ConfirmStep::Call(
                            ConfirmState::Sealing { org, member },
                            Action::SealOrgKey { org_key, public_key },
                        )
                    } else {
                        step == ConfirmStep::Done(Err(SsoError::AutoConfirmKeyLength))
                    },
                }
            }
        },
{
}

/// What the decoder makes of the configured key decides, in the same way, wherever it is
/// handed in.
pub proof fn law_decoded_key_decides(
    org: Organization<Seq<char>>,
    member: Membership<Seq<char>>,
    public_key: Seq<char>,
    decoded: Result<Seq<u8>, Seq<char>>,
)
    ensures
        decoded matches Err(complaint) ==> confirm_seal(org, member, public_key, decoded)
            == ConfirmStep::Done(Err(SsoError::AutoConfirmKeyNotBase64(complaint))),
        decoded matches Ok(org_key) ==> confirm_seal(org, member, public_key, decoded) == if (
        org_key.len() == 32 || org_key.len() == 64) {
            ConfirmStep::Call(
                ConfirmState::Sealing { org, member },
                Action::SealOrgKey { org_key, public_key },
            )
        } else {
            ConfirmStep::Done(Err(SsoError::AutoConfirmKeyLength))
        },
{
}

/// How a confirmation goes on from the sealed key. The membership, with just this key and
/// otherwise as it was, is put to the policies, noted, told to the user by mail where mail
/// can be sent, and written down; and the same one at every turn.
pub proof fn law_confirmation_takes_its_course(
    ctx: ContextView,
    org: Organization<Seq<char>>,
    member: Membership<Seq<char>>,
    akey: Seq<char>,
    error: SsoError<Seq<char>>,
    result: Result<(), SsoError<Seq<char>>>,
)
    ensures
        ({
            let confirmed = Membership {
                uuid: member.uuid,
                user_uuid: member.user_uuid,
                org_uuid: member.org_uuid,
                invited_by_email: member.invited_by_email,
                access_all: member.access_all,
                akey,
                status: MembershipStatus::Confirmed,
                atype: member.atype,
            };
            (ConfirmState::Sealing { org, member }).after(ctx, Reply::Sealed(Ok(akey)))
                == ConfirmStep::Call(
                ConfirmState::CheckingPolicy { org, member: confirmed },
                Action::CheckPolicy { member: confirmed, policy_use: PolicyUse::Confirm },
            )
        }),
        (ConfirmState::CheckingPolicy { org, member }).after(ctx, Reply::Done(Ok(())))
            == ConfirmStep::Call(
            ConfirmState::Logging { org, member },
            Action::LogEvent {
                event: EventType::OrganizationUserConfirmed,
                member_uuid: member.uuid,
                org_uuid: org.uuid,
                user_uuid: ctx.user.uuid,
                device_type: ctx.device.atype,
                ip: ctx.ip,
            },
        ),
        (ConfirmState::Logging { org, member }).after(ctx, Reply::Logged)
            == if ctx.config.mail_enabled {
            ConfirmStep::Call(
                ConfirmState::Mailing { member },
                Action::SendMail(
                    Mail::InviteConfirmed { email: ctx.user.email, org_name: org.name },
                ),
            )
        } else {
            ConfirmStep::Call(ConfirmState::Saving, Action::SaveMembership(member))
        },
        (ConfirmState::Mailing { member }).after(ctx, Reply::Done(Ok(()))) == ConfirmStep::Call(
            ConfirmState::Saving,
            Action::SaveMembership(member),
        ),
        (ConfirmState::Mailing { member }).after(ctx, Reply::Done(Err(error)))
            == ConfirmStep::Call(
            ConfirmState::MailFailed { member },
            Action::LogError {
                message: "Failed to send SSO default org confirmation mail to "@ + ctx.user.email
                    + ": "@ + error.text(),
            },
        ),
        (ConfirmState::MailFailed { member }).after(ctx, Reply::Logged) == ConfirmStep::Call(
            ConfirmState::Saving,
            Action::SaveMembership(member),
        ),
        ConfirmState::Saving.after(ctx, Reply::Done(result)) == ConfirmStep::Done(result),
{
}

/// A key that cannot be sealed, and policies that refuse, end a confirmation with that
/// failure; a reply to something else ends it too.
pub proof fn law_confirmation_fails_as_told(
    ctx: ContextView,
    state: ConfirmState<Seq<char>>,
    reply: ReplyView,
)
    ensures
        ({
            let step = state.after(ctx, reply);
            match (state, reply) {
                (ConfirmState::Sealing { .. }, Reply::Sealed(Ok(_))) => true,
                (ConfirmState::Sealing { .. }, Reply::Sealed(Err(error))) => step
                    == ConfirmStep::Done(Err(error)),
                (ConfirmState::CheckingPolicy { .. }, Reply::Done(Ok(_))) => true,
                (ConfirmState::CheckingPolicy { .. }, Reply::Done(Err(error))) => step
                    == ConfirmStep::Done(Err(error)),
                (ConfirmState::Logging { .. }, Reply::Logged) => true,
                (ConfirmState::Mailing { .. }, Reply::Done(_)) => true,
                (ConfirmState::MailFailed { .. }, Reply::Logged) => true,
                (ConfirmState::Saving, Reply::Done(_)) => true,
                _ => step == ConfirmStep::Done(Err(SsoError::UnexpectedReply)),
            }
        }),
{
}

} // verus!
