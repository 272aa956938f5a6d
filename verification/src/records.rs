//! The records of users, organizations and memberships.
use vstd::prelude::*;

use crate::clock::UtcTime;
use crate::text::copy_of;

verus! {

/// How far a membership has come. What the library does not tell apart is `Other`, with
/// its number.
#[derive(Clone, Copy, Debug, PartialEq, Eq, Structural)]
pub enum MembershipStatus {
    Invited,
    Accepted,
    Confirmed,
    Other(i32),
}

/// What a member may do. What the library does not tell apart is `Other`, with its
/// number.
#[derive(Clone, Copy, Debug, PartialEq, Eq, Structural)]
pub enum MembershipType {
    Owner,
    User,
    Other(i32),
}

/// A user.
#[derive(Debug, PartialEq, Eq)]
pub struct User<S = String> {
    pub uuid: S,
    pub email: S,
    pub name: S,
    pub public_key: Option<S>,
    pub private_key: Option<S>,
    pub verified_at: Option<UtcTime>,
}

/// A device that a user logs in with.
#[derive(Debug, PartialEq, Eq)]
pub struct Device<S = String> {
    pub uuid: S,
    /// The token by which the device renews its session.
    pub refresh_token: S,
    /// What kind of device it is, as a number.
    pub atype: i32,
}

/// A user's link to the provider.
#[derive(Debug, PartialEq, Eq)]
pub struct SsoUser<S = String> {
    pub user_uuid: S,
    pub identifier: S,
}

/// An organization.
#[derive(Debug, PartialEq, Eq)]
pub struct Organization<S = String> {
    pub uuid: S,
    pub name: S,
    pub billing_email: S,
}

/// A collection of an organization.
#[derive(Debug, PartialEq, Eq)]
pub struct Collection<S = String> {
    pub uuid: S,
    pub org_uuid: S,
    pub name: S,
}

/// A user's membership in an organization.
#[derive(Debug, PartialEq, Eq)]
pub struct Membership<S = String> {
    pub uuid: S,
    pub user_uuid: S,
    pub org_uuid: S,
    pub invited_by_email: Option<S>,
    pub access_all: bool,
    /// The key of the organization, sealed for the user; empty before the membership is
    /// confirmed.
    pub akey: S,
    pub status: MembershipStatus,
    pub atype: MembershipType,
}

impl View for User<String> {
    type V = User<Seq<char>>;

    open spec fn view(&self) -> User<Seq<char>> {
        User {
            uuid: self.uuid@,
            email: self.email@,
            name: self.name@,
            public_key: self.public_key.deep_view(),
            private_key: self.private_key.deep_view(),
            verified_at: self.verified_at,
        }
    }
}

impl DeepView for User<String> {
    type V = User<Seq<char>>;

    open spec fn deep_view(&self) -> User<Seq<char>> {
        self@
    }
}

impl View for Device<String> {
    type V = Device<Seq<char>>;

    open spec fn view(&self) -> Device<Seq<char>> {
        Device { uuid: self.uuid@, refresh_token: self.refresh_token@, atype: self.atype }
    }
}

impl View for SsoUser<String> {
    type V = SsoUser<Seq<char>>;

    open spec fn view(&self) -> SsoUser<Seq<char>> {
        SsoUser { user_uuid: self.user_uuid@, identifier: self.identifier@ }
    }
}

impl DeepView for SsoUser<String> {
    type V = SsoUser<Seq<char>>;

    open spec fn deep_view(&self) -> SsoUser<Seq<char>> {
        self@
    }
}

impl View for Organization<String> {
    type V = Organization<Seq<char>>;

    open spec fn view(&self) -> Organization<Seq<char>> {
        Organization {
            uuid: self.uuid@,
            name: self.name@,
            billing_email: self.billing_email@,
        }
    }
}

impl DeepView for Organization<String> {
    type V = Organization<Seq<char>>;

    open spec fn deep_view(&self) -> Organization<Seq<char>> {
        self@
    }
}

impl View for Collection<String> {
    type V = Collection<Seq<char>>;

    open spec fn view(&self) -> Collection<Seq<char>> {
        Collection { uuid: self.uuid@, org_uuid: self.org_uuid@, name: self.name@ }
    }
}

impl DeepView for Collection<String> {
    type V = Collection<Seq<char>>;

    open spec fn deep_view(&self) -> Collection<Seq<char>> {
        self@
    }
}

impl View for Membership<String> {
    type V = Membership<Seq<char>>;

    open spec fn view(&self) -> Membership<Seq<char>> {
        Membership {
            uuid: self.uuid@,
            user_uuid: self.user_uuid@,
            org_uuid: self.org_uuid@,
            invited_by_email: self.invited_by_email.deep_view(),
            access_all: self.access_all,
            akey: self.akey@,
            status: self.status,
            atype: self.atype,
        }
    }
}

impl DeepView for Membership<String> {
    type V = Membership<Seq<char>>;

    open spec fn deep_view(&self) -> Membership<Seq<char>> {
        self@
    }
}

impl Clone for Membership<String> {
    fn clone(&self) -> (copy: Membership<String>)
        ensures
            copy@ == self@,
    {
        Membership {
            uuid: self.uuid.clone(),
            user_uuid: self.user_uuid.clone(),
            org_uuid: self.org_uuid.clone(),
            invited_by_email: copy_of(&self.invited_by_email),
            access_all: self.access_all,
            akey: self.akey.clone(),
            status: self.status,
            atype: self.atype,
        }
    }
}

impl Clone for Organization<String> {
    fn clone(&self) -> (copy: Organization<String>)
        ensures
            copy@ == self@,
    {
        Organization {
            uuid: self.uuid.clone(),
            name: self.name.clone(),
            billing_email: self.billing_email.clone(),
        }
    }
}

impl Membership<Seq<char>> {
    /// The membership, confirmed: the organization's key is in it, sealed.
    pub open spec fn confirmed_with(self, akey: Seq<char>) -> Membership<Seq<char>> {
        Membership { akey, status: MembershipStatus::Confirmed, ..self }
    }

    /// The membership, made that of an owner who sees every collection.
    pub open spec fn made_owner(self) -> Membership<Seq<char>> {
        Membership {
            access_all: true,
            status: MembershipStatus::Confirmed,
            atype: MembershipType::Owner,
            ..self
        }
    }
}

/// A confirmation changes the status and the key of a membership, and making it that of an
/// owner its type, its status and its access; nothing else of it changes.
pub proof fn law_memberships_change_in_part(member: Membership<Seq<char>>, akey: Seq<char>)
    ensures
        ({
            let after = member.confirmed_with(akey);
            &&& after.status == MembershipStatus::Confirmed
            &&& after.akey == akey
            &&& after.uuid == member.uuid
            &&& after.user_uuid == member.user_uuid
            &&& after.org_uuid == member.org_uuid
            &&& after.invited_by_email == member.invited_by_email
            &&& after.access_all == member.access_all
            &&& after.atype == member.atype
        }),
        ({
            let after = member.made_owner();
            &&& after.status == MembershipStatus::Confirmed
            &&& after.atype == MembershipType::Owner
            &&& after.access_all
            &&& after.uuid == member.uuid
            &&& after.user_uuid == member.user_uuid
            &&& after.org_uuid == member.org_uuid
            &&& after.invited_by_email == member.invited_by_email
            &&& after.akey == member.akey
        }),
{
}

} // verus!
