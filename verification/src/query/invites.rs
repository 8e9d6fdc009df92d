//! WS messages about invites.

use vstd::prelude::*;

use crate::query::{RequestType, Requestable};

verus! {

/// Invite an user to the currently logged in user's instance.
#[derive(Debug, Clone, PartialEq, Eq, Hash)]
pub struct Invite {
    /// The ID that the invite is for.
    pub id: crate::id::User,
}

impl Requestable for Invite {
    open spec fn request_type_spec(&self) -> RequestType {
        RequestType::InviteSend
    }

    fn request_type(&self) -> (r: RequestType) {
        RequestType::InviteSend
    }
}

/// Requests an invite from an user.
#[derive(Debug, Clone, PartialEq, Eq, Hash)]
pub struct InviteRequest {
    /// The ID that the request is for.
    pub id: crate::id::User,
}

impl Requestable for InviteRequest {
    open spec fn request_type_spec(&self) -> RequestType {
        RequestType::RequestInvite
    }

    fn request_type(&self) -> (r: RequestType) {
        RequestType::RequestInvite
    }
}

/// Accepts an invite request, giving the requester an invite to the current
/// user's instance.
#[derive(Debug, Clone, PartialEq, Eq, Hash)]
pub struct AcceptInviteRequest {
    /// The ID of the invite that this is a response to.
    pub id: crate::id::Invite,
}

impl Requestable for AcceptInviteRequest {
    open spec fn request_type_spec(&self) -> RequestType {
        RequestType::RequestInviteAccept
    }

    fn request_type(&self) -> (r: RequestType) {
        RequestType::RequestInviteAccept
    }
}

/// Declines an invite request.
#[derive(Debug, Clone, PartialEq, Eq, Hash)]
pub struct DeclineInviteRequest {
    /// The ID of the invite that this is a response to.
    pub id: crate::id::Invite,
}

impl Requestable for DeclineInviteRequest {
    open spec fn request_type_spec(&self) -> RequestType {
        RequestType::RequestInviteDecline
    }

    fn request_type(&self) -> (r: RequestType) {
        RequestType::RequestInviteDecline
    }
}

/// Marks an invite as expired.
#[derive(Debug, Clone, PartialEq, Eq, Hash)]
pub struct ExpireInvite {
    /// The ID of the invite to mark as expired.
    pub id: crate::id::Invite,
}

impl Requestable for ExpireInvite {
    open spec fn request_type_spec(&self) -> RequestType {
        RequestType::InviteExpire
    }

    fn request_type(&self) -> (r: RequestType) {
        RequestType::InviteExpire
    }
}

} // verus!
