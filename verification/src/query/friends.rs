//! Queries and WS messages about friends.

use vstd::prelude::*;

use crate::query::{Queryable, RequestMethod, RequestType, Requestable, SavedLoginCredentials};

verus! {

/// Gets your friends list.
#[derive(Debug, Clone, Copy, PartialEq, Eq, Hash, Structural)]
pub struct FriendList();

impl Queryable<SavedLoginCredentials> for FriendList {
    open spec fn url_spec(&self, state: &SavedLoginCredentials) -> Seq<char> {
        crate::api_v1_http_url_spec() + "/friends"@
    }

    fn url(&self, state: &SavedLoginCredentials) -> (r: String) {
        let mut r = String::from_str(crate::api_v1_http_url());
        r.append("/friends");
        proof {
            assert(r@ =~= self.url_spec(state));
        }
        r
    }

    open spec fn method_spec(&self, state: &SavedLoginCredentials) -> RequestMethod {
        RequestMethod::Get
    }

    fn method(&self, state: &SavedLoginCredentials) -> (r: RequestMethod) {
        RequestMethod::Get
    }

    open spec fn body_spec(&self, state: &SavedLoginCredentials) -> Option<Seq<char>> {
        None
    }

    fn body(&self, state: &SavedLoginCredentials) -> (r: Option<String>) {
        None
    }

    open spec fn wrapped_response_spec(&self) -> bool {
        true
    }

    fn wrapped_response(&self) -> (r: bool) {
        true
    }
}

/// Gets friend requests.
#[derive(Debug, Clone, Copy, PartialEq, Eq, Hash, Structural)]
pub struct FriendRequests();

impl Queryable<SavedLoginCredentials> for FriendRequests {
    open spec fn url_spec(&self, state: &SavedLoginCredentials) -> Seq<char> {
        crate::api_v1_http_url_spec() + "/friends/requests"@
    }

    fn url(&self, state: &SavedLoginCredentials) -> (r: String) {
        let mut r = String::from_str(crate::api_v1_http_url());
        r.append("/friends/requests");
        proof {
            assert(r@ =~= self.url_spec(state));
        }
        r
    }

    open spec fn method_spec(&self, state: &SavedLoginCredentials) -> RequestMethod {
        RequestMethod::Get
    }

    fn method(&self, state: &SavedLoginCredentials) -> (r: RequestMethod) {
        RequestMethod::Get
    }

    open spec fn body_spec(&self, state: &SavedLoginCredentials) -> Option<Seq<char>> {
        None
    }

    fn body(&self, state: &SavedLoginCredentials) -> (r: Option<String>) {
        None
    }

    open spec fn wrapped_response_spec(&self) -> bool {
        true
    }

    fn wrapped_response(&self) -> (r: bool) {
        true
    }
}

/// Requests an user to be the current user's friend.
#[derive(Debug, Clone, PartialEq, Eq, Hash)]
pub struct FriendRequest {
    /// The ID of the user to request to be friends with.
    pub id: crate::id::Invite,
}

impl Requestable for FriendRequest {
    open spec fn request_type_spec(&self) -> RequestType {
        RequestType::FriendRequestSend
    }

    fn request_type(&self) -> (r: RequestType) {
        RequestType::FriendRequestSend
    }
}

/// Accepts another user's request to be friends.
#[derive(Debug, Clone, PartialEq, Eq, Hash)]
pub struct AcceptFriendRequest {
    /// The ID of the user that this response is to.
    pub id: crate::id::Invite,
}

impl Requestable for AcceptFriendRequest {
    open spec fn request_type_spec(&self) -> RequestType {
        RequestType::FriendRequestAccept
    }

    fn request_type(&self) -> (r: RequestType) {
        RequestType::FriendRequestAccept
    }
}

/// Declines another user's request to be friends.
#[derive(Debug, Clone, PartialEq, Eq, Hash)]
pub struct DeclineFriendRequest {
    /// The ID of the user that this response is to.
    pub id: crate::id::Invite,
}

impl Requestable for DeclineFriendRequest {
    open spec fn request_type_spec(&self) -> RequestType {
        RequestType::FriendRequestDecline
    }

    fn request_type(&self) -> (r: RequestType) {
        RequestType::FriendRequestDecline
    }
}

/// Removes an user from the current user's friends list.
#[derive(Debug, Clone, PartialEq, Eq, Hash)]
pub struct UnFriend {
    /// The ID of the user to remove from the friends list.
    pub id: crate::id::Invite,
}

impl Requestable for UnFriend {
    open spec fn request_type_spec(&self) -> RequestType {
        RequestType::UnFriend
    }

    fn request_type(&self) -> (r: RequestType) {
        RequestType::UnFriend
    }
}

} // verus!
