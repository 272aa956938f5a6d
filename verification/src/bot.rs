//! The bot that owns the organization, so that no user has to.
use vstd::prelude::*;

use crate::clock::UtcTime;
use crate::error::SsoError;
use crate::protocol::{Action, ActionView, Context, ContextView, Reply, ReplyView, Step, StepView};
use crate::records::{Membership, MembershipStatus, MembershipType, SsoUser, User};
use crate::text::{lowercase, same_text};

verus! {

/// The name that the bot goes by, and no other account.
pub open spec fn bot_name() -> Seq<char> {
    "SSO Organization Bot"@
}

/// How far the bot's membership has come.
#[derive(Debug, PartialEq, Eq)]
pub enum BotState<S = String> {
    /// The bot is looked up by its email address.
    FindingUser { org_uuid: S, email: S },
    /// An account has the address; whether it is linked to the provider is looked up.
    CheckingLink { org_uuid: S, email: S, bot: User<S> },
    /// The bot's account is made.
    SavingUser { org_uuid: S, bot_uuid: S },
    /// The bot's membership is looked up.
    FindingMembership { org_uuid: S, bot_uuid: S },
    /// The bot's membership is made or mended.
    SavingMembership,
}

impl View for BotState<String> {
    type V = BotState<Seq<char>>;

    open spec fn view(&self) -> BotState<Seq<char>> {
        match self {
            BotState::FindingUser { org_uuid, email } => BotState::FindingUser {
                org_uuid: org_uuid@,
                email: email@,
            },
            BotState::CheckingLink { org_uuid, email, bot } => BotState::CheckingLink {
                org_uuid: org_uuid@,
                email: email@,
                bot: bot@,
            },
            BotState::SavingUser { org_uuid, bot_uuid } => BotState::SavingUser {
                org_uuid: org_uuid@,
                bot_uuid: bot_uuid@,
            },
            BotState::FindingMembership { org_uuid, bot_uuid } => BotState::FindingMembership {
                org_uuid: org_uuid@,
                bot_uuid: bot_uuid@,
            },
            BotState::SavingMembership => BotState::SavingMembership,
        }
    }
}

/// The account that is made for the bot.
pub open spec fn new_bot(ctx: ContextView, email: Seq<char>, now: UtcTime) -> User<Seq<char>> {
    User {
        uuid: ctx.fresh.bot_user,
        email,
        name: bot_name(),
        public_key: None,
        private_key: None,
        verified_at: Some(now),
    }
}

/// The account may serve as the bot: it has the bot's name, nobody has set it up to log
/// in with, and it is not linked to the provider.
pub open spec fn may_be_bot(
    account: User<Seq<char>>,
    link: Option<Option<SsoUser<Seq<char>>>>,
) -> bool {
    &&& !(link matches Some(Some(_)))
    &&& account.private_key is None
    &&& account.name == bot_name()
}

/// The membership that is made for the bot: that of an owner.
pub open spec fn new_bot_membership(
    ctx: ContextView,
    bot_uuid: Seq<char>,
    org_uuid: Seq<char>,
) -> Membership<Seq<char>> {
    Membership {
        uuid: ctx.fresh.bot_membership,
        user_uuid: bot_uuid,
        org_uuid,
        invited_by_email: None,
        access_all: true,
        akey: Seq::empty(),
        status: MembershipStatus::Confirmed,
        atype: MembershipType::Owner,
    }
}

/// The first step towards the bot's membership. There is none to take where no bot is
/// wanted.
pub open spec fn bot_start(ctx: ContextView, org_uuid: Seq<char>) -> StepView<
    BotState<Seq<char>>,
    (),
> {
    if ctx.config.sso_org_bootstrap {
        let email = lowercase(ctx.config.sso_org_bot_email);
        Step::Call(
            BotState::FindingUser { org_uuid, email },
            Action::FindUserByMail { email },
        )
    } else {
        Step::Done(Ok(()))
    }
}

/// The step in which the bot's membership is looked up.
pub open spec fn bot_find_membership(org_uuid: Seq<char>, bot_uuid: Seq<char>) -> StepView<
    BotState<Seq<char>>,
    (),
> {
    Step::Call(
        BotState::FindingMembership { org_uuid, bot_uuid },
        Action::FindMembership { user_uuid: bot_uuid, org_uuid },
    )
}

impl BotState<Seq<char>> {
    /// The step that follows a reply.
    pub open spec fn after(self, ctx: ContextView, reply: ReplyView, now: UtcTime) -> StepView<
        BotState<Seq<char>>,
        (),
    > {
        match (self, reply) {
            (BotState::FindingUser { org_uuid, email }, Reply::User(Some(bot))) => Step::Call(
                BotState::CheckingLink { org_uuid, email, bot },
                Action::FindSsoUserByMail { email },
            ),
            (BotState::FindingUser { org_uuid, email }, Reply::User(None)) => Step::Call(
                BotState::SavingUser { org_uuid, bot_uuid: new_bot(ctx, email, now).uuid },
                Action::SaveUser(new_bot(ctx, email, now)),
            ),
            (BotState::CheckingLink { org_uuid, email, bot }, Reply::SsoUser(link)) => {
                if may_be_bot(bot, link) {
                    bot_find_membership(org_uuid, bot.uuid)
                } else {
                    Step::Done(Err(SsoError::BotEmailInUse(email)))
                }
            },
            (BotState::SavingUser { org_uuid, bot_uuid }, Reply::Done(Ok(_))) => {
                bot_find_membership(org_uuid, bot_uuid)
            },
            (BotState::SavingUser { .. }, Reply::Done(Err(error))) => Step::Done(Err(error)),
            (
                BotState::FindingMembership { org_uuid, bot_uuid },
                Reply::Membership(None),
            ) => Step::Call(
                BotState::SavingMembership,
                Action::SaveMembership(new_bot_membership(ctx, bot_uuid, org_uuid)),
            ),
            (BotState::FindingMembership { .. }, Reply::Membership(Some(member))) => {
                if member == member.made_owner() {
                    Step::Done(Ok(()))
                } else {
                    Step::Call(
                        BotState::SavingMembership,
                        Action::SaveMembership(member.made_owner()),
                    )
                }
            },
            (BotState::SavingMembership, Reply::Done(result)) => Step::Done(result),
            _ => Step::Done(Err(SsoError::UnexpectedReply)),
        }
    }
}

/// Sees to it that the bot owns the organization: the first step.
pub fn ensure_sso_org_bot_membership(ctx: &Context, org_uuid: &String) -> (step: Step<
    BotState,
    Action,
    (),
>)
    ensures
        step@ == bot_start(ctx@, org_uuid@),
{
    if !ctx.config.sso_org_bootstrap {
        return Step::Done(Ok(()));
    }
    let email = ctx.config.sso_org_bot_email.to_lowercase();
    Step::Call(
        BotState::FindingUser { org_uuid: org_uuid.clone(), email: email.clone() },
        Action::FindUserByMail { email },
    )
}

fn find_membership(org_uuid: String, bot_uuid: String) -> (step: Step<BotState, Action, ()>)
    ensures
        step@ == bot_find_membership(org_uuid@, bot_uuid@),
{
    Step::Call(
        BotState::FindingMembership { org_uuid: org_uuid.clone(), bot_uuid: bot_uuid.clone() },
        Action::FindMembership { user_uuid: bot_uuid, org_uuid },
    )
}

impl BotState<String> {
    /// The step that follows a reply.
    pub fn advance(self, ctx: &Context, reply: Reply, now: UtcTime) -> (step: Step<
        BotState,
        Action,
        (),
    >)
        ensures
            step@ == self@.after(ctx@, reply@, now),
    {
        match (self, reply) {
            (BotState::FindingUser { org_uuid, email }, Reply::User(Some(bot))) => {
                let asked = email.clone();
                Step::Call(
                    BotState::CheckingLink { org_uuid, email, bot },
                    Action::FindSsoUserByMail { email: asked },
                )
            },
            (BotState::FindingUser { org_uuid, email }, Reply::User(None)) => {
                let bot = User {
                    uuid: ctx.fresh.bot_user.clone(),
                    email,
                    name: "SSO Organization Bot".to_owned(),
                    public_key: None,
                    private_key: None,
                    verified_at: Some(now),
                };
                Step::Call(
                    BotState::SavingUser { org_uuid, bot_uuid: bot.uuid.clone() },
                    Action::SaveUser(bot),
                )
            },
            (BotState::CheckingLink { org_uuid, email, bot }, Reply::SsoUser(link)) => {
                let linked = match link {
                    Some(Some(_)) => true,
                    _ => false,
                };
                if linked || bot.private_key.is_some() || !same_text(
                    &bot.name,
                    "SSO Organization Bot",
                ) {
                    Step::Done(Err(SsoError::BotEmailInUse(email)))
                } else {
                    find_membership(org_uuid, bot.uuid)
                }
            },
            (BotState::SavingUser { org_uuid, bot_uuid }, Reply::Done(result)) => match result {
                Ok(()) => find_membership(org_uuid, bot_uuid),
                Err(error) => Step::Done(Err(error)),
            },
            (BotState::FindingMembership { org_uuid, bot_uuid }, Reply::Membership(None)) => {
                let member = Membership {
                    uuid: ctx.fresh.bot_membership.clone(),
                    user_uuid: bot_uuid,
                    org_uuid,
                    invited_by_email: None,
                    access_all: true,
                    akey: String::new(),
                    status: MembershipStatus::Confirmed,
                    atype: MembershipType::Owner,
                };
                Step::Call(BotState::SavingMembership, Action::SaveMembership(member))
            },
            (BotState::FindingMembership { .. }, Reply::Membership(Some(found))) => {
                let mut member = found;
                let changed = member.atype != MembershipType::Owner || member.status
                    != MembershipStatus::Confirmed || !member.access_all;
                if !changed {
                    return Step::Done(Ok(()));
                }
                member.atype = MembershipType::Owner;
                member.status = MembershipStatus::Confirmed;
                member.access_all = true;
                Step::Call(BotState::SavingMembership, Action::SaveMembership(member))
            },
            (BotState::SavingMembership, Reply::Done(result)) => Step::Done(result),
            _ => Step::Done(Err(SsoError::UnexpectedReply)),
        }
    }
}

/// A step of seeing to the bot, as specifications see it.
pub type BotStep = StepView<BotState<Seq<char>>, ()>;

/// Which account may serve as the bot: one with the bot's name that nobody has set up and
/// that is not linked to the provider. Nothing else about it matters.
pub proof fn law_who_may_be_the_bot(
    account: User<Seq<char>>,
    link: Option<Option<SsoUser<Seq<char>>>>,
)
    ensures
        may_be_bot(account, link) <==> account.name == "SSO Organization Bot"@
            && account.private_key is None && (link is None || link->0 is None),
{
}

/// Where no bot is wanted, there is nothing to do about it. Where one is, its account is
/// looked up by its email address, in lower case; where there is one, whether it is linked
/// to the provider is looked up next, and where there is none, one is made: by its name and
/// address, verified now, with no keys.
pub proof fn law_bot_account_is_found_or_made(
    ctx: ContextView,
    org_uuid: Seq<char>,
    found: Option<User<Seq<char>>>,
    now: UtcTime,
)
    ensures
        !ctx.config.sso_org_bootstrap ==> bot_start(ctx, org_uuid) == BotStep::Done(Ok(())),
        ctx.config.sso_org_bootstrap ==> {
            let email = lowercase(ctx.config.sso_org_bot_email);
            &&& bot_start(ctx, org_uuid) matches Step::Call(state, action)
            &&& action == (ActionView::FindUserByMail { email })
            &&& match found {
                Some(bot) => state.after(ctx, Reply::User(found), now) == BotStep::Call(
                    BotState::CheckingLink { org_uuid, email, bot },
                    Action::FindSsoUserByMail { email },
                ),
                None => state.after(ctx, Reply::User(found), now) == BotStep::Call(
                    BotState::SavingUser { org_uuid, bot_uuid: ctx.fresh.bot_user },
                    Action::SaveUser(
                        User {
                            uuid: ctx.fresh.bot_user,
                            email,
                            name: "SSO Organization Bot"@,
                            public_key: None,
                            private_key: None,
                            verified_at: Some(now),
                        },
                    ),
                ),
            }
        },
{
}

/// An account that may serve as the bot, and one that was made for it, has its membership in
/// the organization looked up; one that may not ends the procedure.
pub proof fn law_bot_account_is_checked(
    ctx: ContextView,
    org_uuid: Seq<char>,
    email: Seq<char>,
    bot: User<Seq<char>>,
    link: Option<Option<SsoUser<Seq<char>>>>,
    bot_uuid: Seq<char>,
    now: UtcTime,
)
    ensures
        (BotState::CheckingLink { org_uuid, email, bot }).after(ctx, Reply::SsoUser(link), now)
            == if bot.name == "SSO Organization Bot"@ && bot.private_key is None && (link is None
            || link->0 is None) {
            BotStep::Call(
                BotState::FindingMembership { org_uuid, bot_uuid: bot.uuid },
                Action::FindMembership { user_uuid: bot.uuid, org_uuid },
            )
        } else {
            BotStep::Done(Err(SsoError::BotEmailInUse(email)))
        },
        (BotState::SavingUser { org_uuid, bot_uuid }).after(ctx, Reply::Done(Ok(())), now)
            == BotStep::Call(
            BotState::FindingMembership { org_uuid, bot_uuid },
            Action::FindMembership { user_uuid: bot_uuid, org_uuid },
        ),
{
}

/// The bot's membership ends up as that of an owner who is confirmed and sees everything: it
/// is made so where there is none, changed where it is not, and left alone where it is.
pub proof fn law_bot_membership_is_an_owners(
    ctx: ContextView,
    org_uuid: Seq<char>,
    bot_uuid: Seq<char>,
    found: Option<Membership<Seq<char>>>,
    now: UtcTime,
)
    ensures
        ({
            let step = (BotState::FindingMembership { org_uuid, bot_uuid }).after(
                ctx,
                Reply::Membership(found),
                now,
            );
            match found {
                Some(member) => if member.atype == MembershipType::Owner && member.status
                    == MembershipStatus::Confirmed && member.access_all {
                    step == BotStep::Done(Ok(()))
                } else {
                    step == BotStep::Call(
                        BotState::SavingMembership,
                        Action::SaveMembership(
                            Membership {
                                uuid: member.uuid,
                                user_uuid: member.user_uuid,
                                org_uuid: member.org_uuid,
                                invited_by_email: member.invited_by_email,
                                access_all: true,
                                akey: member.akey,
                                status: MembershipStatus::Confirmed,
                                atype: MembershipType::Owner,
                            },
                        ),
                    )
                },
                None => step == BotStep::Call(
                    BotState::SavingMembership,
                    Action::SaveMembership(
                        Membership {
                            uuid: ctx.fresh.bot_membership,
                            user_uuid: bot_uuid,
                            org_uuid,
                            invited_by_email: None,
                            access_all: true,
                            akey: Seq::empty(),
                            status: MembershipStatus::Confirmed,
                            atype: MembershipType::Owner,
                        },
                    ),
                ),
            }
        }),
{
}

/// What cannot be written ends the procedure with that failure, the last thing to be written
/// ends it well, and a reply to something else ends it too.
pub proof fn law_bot_fails_as_told(
    ctx: ContextView,
    state: BotState<Seq<char>>,
    reply: ReplyView,
    now: UtcTime,
)
    ensures
        ({
            let step = state.after(ctx, reply, now);
            match (state, reply) {
                (BotState::FindingUser { .. }, Reply::User(_)) => true,
                (BotState::CheckingLink { .. }, Reply::SsoUser(_)) => true,
                (BotState::SavingUser { .. }, Reply::Done(Ok(_))) => true,
                (BotState::SavingUser { .. }, Reply::Done(Err(error))) => step == BotStep::Done(
                    Err(error),
                ),
                (BotState::FindingMembership { .. }, Reply::Membership(_)) => true,
                (BotState::SavingMembership, Reply::Done(result)) => step == BotStep::Done(result),
                _ => step == BotStep::Done(Err(SsoError::UnexpectedReply)),
            }
        }),
{
}

} // verus!
