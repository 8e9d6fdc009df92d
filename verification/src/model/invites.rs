//! Models of invites and invite requests.

use vstd::prelude::*;

use crate::model::users::UserBase;
use crate::model::worlds::WorldDisplayDetails;

verus! {

/// A request from the sender to be invited by the receiver.
#[derive(Debug, Clone, PartialEq, Eq, Hash)]
pub struct InviteRequest {
    /// The ID of the invite.
    pub id: crate::id::Invite,
    /// The sender of the invite request.
    pub sender: UserBase,
    /// The receiver's ID.
    pub receiver_id: crate::id::User,
}

/// An invite from someone to join their instance.
#[derive(Debug, Clone, PartialEq, Eq, Hash)]
pub struct Invite {
    /// The ID of the invite.
    pub id: crate::id::Invite,
    /// The user that this invite is from.
    pub user: UserBase,
    /// The world that this invite is to.
    pub world: WorldDisplayDetails,
    /// The ID of the instance that this invite is to.
    pub instance_id: crate::id::Instance,
    /// The receiving user's ID.
    pub receiver_id: crate::id::User,
    /// The instance's name that this invite is to.
    pub instance_name: String,
}

/// A list of invites.
#[derive(Debug, Clone, PartialEq, Eq, Hash)]
pub struct Invites(pub Vec<Invite>);

/// A list of invite requests.
#[derive(Debug, Clone, PartialEq, Eq, Hash)]
pub struct InviteRequests(pub Vec<InviteRequest>);

} // verus!
