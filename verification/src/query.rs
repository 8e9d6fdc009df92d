//! Data about queries which can be used with an HTTP client of choice.
//!
//! A query type describes one HTTP request — its URL, method, optional JSON
//! body, and whether the response arrives wrapped in the message/data
//! envelope — and declares through its `Queryable` state parameter which
//! authentication state may issue it.  A message type for the WebSocket
//! channel declares its numeric request discriminant through `Requestable`.

use vstd::prelude::*;

pub mod categories;
pub mod friends;
pub mod instances;
pub mod invites;
pub mod searches;
pub mod users;
pub mod worlds;

pub use categories::Categories;
pub use friends::{AcceptFriendRequest, DeclineFriendRequest, FriendList, FriendRequest,
    FriendRequests, UnFriend};
pub use instances::Instance;
pub use invites::{AcceptInviteRequest, DeclineInviteRequest, ExpireInvite, Invite, InviteRequest};
pub use searches::Search;
pub use users::{AuthType, BlockUser, LoginCredentials, SavedLoginCredentials, UnBlockUser,
    UserDetails};
pub use worlds::{WorldDetailsQuery, WorldListQuery};

verus! {

/// Possible request methods.
#[derive(Clone, Copy, Debug, PartialEq, Eq, Structural)]
pub enum RequestMethod {
    /// The request should use the `HEAD` method.
    Head,
    /// The request should use the `GET` method.
    Get,
    /// The request should use the `POST` method.
    Post,
    /// The request should use the `PUT` method.
    Put,
    /// The request should use the `PATCH` method.
    Patch,
    /// The request should use the `DELETE` method.
    Delete,
}

impl RequestMethod {
    /// The method's name on the wire.
    pub open spec fn name_spec(self) -> Seq<char> {
        match self {
            RequestMethod::Head => "HEAD"@,
            RequestMethod::Get => "GET"@,
            RequestMethod::Post => "POST"@,
            RequestMethod::Put => "PUT"@,
            RequestMethod::Patch => "PATCH"@,
            RequestMethod::Delete => "DELETE"@,
        }
    }

    /// The method's name on the wire.
    pub fn name(&self) -> (r: &'static str)
        ensures
            r@ == self.name_spec(),
    {
        match self {
            RequestMethod::Head => "HEAD",
            RequestMethod::Get => "GET",
            RequestMethod::Post => "POST",
            RequestMethod::Put => "PUT",
            RequestMethod::Patch => "PATCH",
            RequestMethod::Delete => "DELETE",
        }
    }
}

/// The authentication state of a client that has no credentials.  Even
/// unauthenticated requests to CVR's HTTP API should take rate limits into
/// account, thus queries declare this state rather than none at all.
#[derive(Clone, Copy, Debug, PartialEq, Eq, Hash, Structural)]
pub struct NoAuthentication {}

/// Gets the wanted authentication state (`Self`) out of the state a client
/// holds; a query requiring `Self` can then be issued by that client.
pub trait FromApiState<ApiState>: Sized {
    /// What `from_state` yields.
    spec fn from_state_spec(state: &ApiState) -> Self;

    /// Gets the wanted state (`Self`) from the client's `ApiState`.
    fn from_state(state: &ApiState) -> (r: Self)
        ensures
            r == Self::from_state_spec(state),
    ;
}

impl FromApiState<NoAuthentication> for NoAuthentication {
    open spec fn from_state_spec(state: &NoAuthentication) -> Self {
        NoAuthentication {  }
    }

    fn from_state(state: &NoAuthentication) -> (r: Self) {
        NoAuthentication {  }
    }
}

impl FromApiState<SavedLoginCredentials> for NoAuthentication {
    open spec fn from_state_spec(state: &SavedLoginCredentials) -> Self {
        NoAuthentication {  }
    }

    fn from_state(state: &SavedLoginCredentials) -> (r: Self) {
        NoAuthentication {  }
    }
}

impl FromApiState<SavedLoginCredentials> for SavedLoginCredentials {
    open spec fn from_state_spec(state: &SavedLoginCredentials) -> Self {
        *state
    }

    fn from_state(state: &SavedLoginCredentials) -> (r: Self) {
        SavedLoginCredentials {
            username: state.username.clone(),
            access_key: state.access_key.clone(),
        }
    }
}

/// Data for one HTTP request and the reading of its response.  The `State`
/// parameter is the authentication state the query requires: a client only
/// offers `query` for the states its credentials can supply.
pub trait Queryable<State> {
    /// The URL of the request.
    spec fn url_spec(&self, state: &State) -> Seq<char>;

    /// The URL of the request.
    fn url(&self, state: &State) -> (r: String)
        ensures
            r@ == self.url_spec(state),
    ;

    /// The method to use for the request.
    spec fn method_spec(&self, state: &State) -> RequestMethod;

    /// The method to use for the request.
    fn method(&self, state: &State) -> (r: RequestMethod)
        ensures
            r == self.method_spec(state),
    ;

    /// The JSON body of the request, if it carries one.
    spec fn body_spec(&self, state: &State) -> Option<Seq<char>>;

    /// Creates the JSON body for the request, if it carries one.
    fn body(&self, state: &State) -> (r: Option<String>)
        ensures
            match r {
                Some(b) => self.body_spec(state) == Some(b@),
                None => self.body_spec(state) is None,
            },
    ;

    /// Whether the response arrives wrapped in the message/data envelope.
    spec fn wrapped_response_spec(&self) -> bool;

    /// Whether the response arrives wrapped in the message/data envelope.
    fn wrapped_response(&self) -> (r: bool)
        ensures
            r == self.wrapped_response_spec(),
    ;
}

/// A WS message going from the client to the CVR server.
#[derive(Clone, Copy, Debug, PartialEq, Eq, Hash, Structural)]
pub enum RequestType {
    /// Should be sent as a keepalive to keep an account marked as online;
    /// can for example be sent every thirty seconds.
    SelfOnline,
    /// Requests another user's friendship.
    FriendRequestSend,
    /// Accepts a friend request.
    FriendRequestAccept,
    /// Declines a friend request.
    FriendRequestDecline,
    /// Removes a friend.
    UnFriend,
    /// Invites a user to the current instance.
    InviteSend,
    /// Marks an invite as expired.
    InviteExpire,
    /// Asks a user for an invite.
    RequestInvite,
    /// Accepts a request for an invite.
    RequestInviteAccept,
    /// Declines a request for an invite.
    RequestInviteDecline,
    /// Adds a user to the blocked users list.
    BlockUser,
    /// Removes a user from the blocked users list.
    UnBlockUser,
    /// A global text message.
    GlobalMessage,
    /// A text message to one user.
    UserMessage,
    /// A global system announcement.
    SystemGlobalAnnouncement,
    /// A system announcement to one user.
    SystemUserAnnouncement,
}

impl RequestType {
    /// The numeric discriminant this message type carries on the wire.
    pub open spec fn discriminant_spec(self) -> u64 {
        match self {
            RequestType::SelfOnline => 0,
            RequestType::FriendRequestSend => 5,
            RequestType::FriendRequestAccept => 6,
            RequestType::FriendRequestDecline => 7,
            RequestType::UnFriend => 8,
            RequestType::InviteSend => 10,
            RequestType::InviteExpire => 11,
            RequestType::RequestInvite => 15,
            RequestType::RequestInviteAccept => 16,
            RequestType::RequestInviteDecline => 17,
            RequestType::BlockUser => 30,
            RequestType::UnBlockUser => 31,
            RequestType::GlobalMessage => 100,
            RequestType::UserMessage => 101,
            RequestType::SystemGlobalAnnouncement => 110,
            RequestType::SystemUserAnnouncement => 111,
        }
    }

    /// The numeric discriminant this message type carries on the wire.
    pub fn discriminant(&self) -> (r: u64)
        ensures
            r == self.discriminant_spec(),
    {
        match self {
            RequestType::SelfOnline => 0,
            RequestType::FriendRequestSend => 5,
            RequestType::FriendRequestAccept => 6,
            RequestType::FriendRequestDecline => 7,
            RequestType::UnFriend => 8,
            RequestType::InviteSend => 10,
            RequestType::InviteExpire => 11,
            RequestType::RequestInvite => 15,
            RequestType::RequestInviteAccept => 16,
            RequestType::RequestInviteDecline => 17,
            RequestType::BlockUser => 30,
            RequestType::UnBlockUser => 31,
            RequestType::GlobalMessage => 100,
            RequestType::UserMessage => 101,
            RequestType::SystemGlobalAnnouncement => 110,
            RequestType::SystemUserAnnouncement => 111,
        }
    }
}

/// Data for a WS request.
pub trait Requestable {
    /// The type of the request.
    spec fn request_type_spec(&self) -> RequestType;

    /// The type of the request.
    fn request_type(&self) -> (r: RequestType)
        ensures
            r == self.request_type_spec(),
    ;
}

/// The WS API message base structure.
#[derive(Debug, Clone, PartialEq, Eq, Hash)]
pub struct RequestWrapper<T> {
    /// An enum that indicates the WS message's type.
    pub request_type: RequestType,
    /// The actual data of the message.
    pub data: T,
}

impl RequestWrapper<String> {
    /// The frame text of this message, once its data is JSON text: the
    /// message type's discriminant around the payload.
    pub fn to_frame(&self) -> (r: String)
        ensures
            r@ == crate::api_client::ws::request_frame(
                self.request_type.discriminant_spec(),
                self.data@,
            ),
    {
        crate::api_client::ws::encode_request_frame(
            self.request_type.discriminant(),
            self.data.as_str(),
        )
    }
}

/// Mark the connected user account as being online.
#[derive(Debug, Clone, Copy, PartialEq, Eq, Hash, Structural)]
pub struct Online;

impl Requestable for Online {
    open spec fn request_type_spec(&self) -> RequestType {
        RequestType::SelfOnline
    }

    fn request_type(&self) -> (r: RequestType) {
        RequestType::SelfOnline
    }
}

} // verus!
