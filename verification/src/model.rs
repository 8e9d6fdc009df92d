//! Models of the API responses to queries.
//!
//! The response models are plain data.  The one piece of logic here is the
//! incoming WebSocket message union: every inbound frame carries a numeric
//! discriminant, and `decode_ws_data` maps each known discriminant to its
//! variant, keeping the payload as the raw JSON text it arrived as.  An
//! unknown discriminant is a hard decode error, never a silent drop or a
//! catch-all.

use vstd::prelude::*;

use crate::api_client::ApiError;

pub mod assets;
pub mod authentication;
pub mod categories;
pub mod featureds;
pub mod id;
pub mod instances;
pub mod invites;
pub mod searches;
pub mod users;
pub mod worlds;

pub use assets::{AssetBase, AssetBaseWithCategories, AssetBaseWithTags, AssetFile, AssetTag,
    AvatarAssetDetails, AvatarDetails};
pub use authentication::ApiAuth;
pub use categories::{Categories, Category};
pub use featureds::FeaturedItem;
pub use instances::{ExtendedInstanceDetails, InstanceDetails, InstanceHost, InstanceJoinResponse,
    InstancePrivacy, InstanceRegion};
pub use invites::{Invite, InviteRequest, InviteRequests, Invites};
pub use searches::{SearchResult, SearchResultId, SearchResults};
pub use users::{FriendRequests, Friends, OnlineUserStatusChanges, UserAuth, UserBase, UserDetails,
    UserOnlineStatusChange};
pub use worlds::{WorldDetails, WorldDetailsResponse, WorldDisplayDetails, WorldInstance,
    WorldListItem};

verus! {

/// Seems like a lot if not all of the API calls are wrapped in a generic
/// data/message struct.
#[derive(Debug, Clone, PartialEq, Eq, Hash)]
pub struct ResponseDataWrapper<T> {
    /// The optional message, an empty string when missing or null.
    pub message: String,
    /// The actual data.
    pub data: T,
}

/// The actual response data of an incoming WebSocket message.  Each variant
/// keeps the raw JSON text of its payload; what the payload means is the
/// variant's.
#[derive(Debug, Clone, PartialEq, Eq, Hash)]
pub enum WsResponseData {
    /// Some sort of alert or notification, shown as a menu popup.
    MenuPopup(String),
    /// Some sort of alert or notification, shown on the HUD.
    HudMessage(String),
    /// Some sort of alert or notification, pushed to the user.
    PushNotification(String),
    /// Update of the status of online friends.
    OnlineFriends(String),
    /// Update of current invites.
    Invites(String),
    /// Update of current invite requests.
    RequestInvites(String),
    /// Update of current friend requests.
    FriendRequest(String),
}

/// Whether the service uses `d` as the discriminant of some incoming
/// message type.
pub open spec fn known_discriminant(d: u64) -> bool {
    d == 0 || d == 1 || d == 2 || d == 10 || d == 15 || d == 20 || d == 25
}

impl WsResponseData {
    /// The discriminant this variant arrives under.
    pub open spec fn discriminant_spec(self) -> u64 {
        match self {
            WsResponseData::MenuPopup(_) => 0,
            WsResponseData::HudMessage(_) => 1,
            WsResponseData::PushNotification(_) => 2,
            WsResponseData::OnlineFriends(_) => 10,
            WsResponseData::Invites(_) => 15,
            WsResponseData::RequestInvites(_) => 20,
            WsResponseData::FriendRequest(_) => 25,
        }
    }

    /// The raw JSON text of the payload, whichever variant holds it.
    pub open spec fn payload_spec(self) -> Seq<char> {
        match self {
            WsResponseData::MenuPopup(p) => p@,
            WsResponseData::HudMessage(p) => p@,
            WsResponseData::PushNotification(p) => p@,
            WsResponseData::OnlineFriends(p) => p@,
            WsResponseData::Invites(p) => p@,
            WsResponseData::RequestInvites(p) => p@,
            WsResponseData::FriendRequest(p) => p@,
        }
    }

    /// The discriminant this variant arrives under.
    pub fn discriminant(&self) -> (r: u64)
        ensures
            r == self.discriminant_spec(),
    {
        match self {
            WsResponseData::MenuPopup(_) => 0,
            WsResponseData::HudMessage(_) => 1,
            WsResponseData::PushNotification(_) => 2,
            WsResponseData::OnlineFriends(_) => 10,
            WsResponseData::Invites(_) => 15,
            WsResponseData::RequestInvites(_) => 20,
            WsResponseData::FriendRequest(_) => 25,
        }
    }

    /// The raw JSON text of the payload, whichever variant holds it.
    pub fn payload(&self) -> (r: &str)
        ensures
            r@ == self.payload_spec(),
    {
        match self {
            WsResponseData::MenuPopup(p) => p.as_str(),
            WsResponseData::HudMessage(p) => p.as_str(),
            WsResponseData::PushNotification(p) => p.as_str(),
            WsResponseData::OnlineFriends(p) => p.as_str(),
            WsResponseData::Invites(p) => p.as_str(),
            WsResponseData::RequestInvites(p) => p.as_str(),
            WsResponseData::FriendRequest(p) => p.as_str(),
        }
    }
}

/// Sorts an incoming message's payload under its discriminant: exactly the
/// known discriminants decode, to the variant registered for them, and the
/// payload text is carried over unchanged.  Every other discriminant is a
/// serialization error.
pub fn decode_ws_data(d: u64, payload: String) -> (r: Result<WsResponseData, ApiError>)
    ensures
        r is Ok <==> known_discriminant(d),
        r matches Ok(v) ==> v.discriminant_spec() == d && v.payload_spec() == payload@,
        r matches Err(e) ==> e == ApiError::Serde,
{
    if d == 0 {
        Ok(WsResponseData::MenuPopup(payload))
    } else if d == 1 {
        Ok(WsResponseData::HudMessage(payload))
    } else if d == 2 {
        Ok(WsResponseData::PushNotification(payload))
    } else if d == 10 {
        Ok(WsResponseData::OnlineFriends(payload))
    } else if d == 15 {
        Ok(WsResponseData::Invites(payload))
    } else if d == 20 {
        Ok(WsResponseData::RequestInvites(payload))
    } else if d == 25 {
        Ok(WsResponseData::FriendRequest(payload))
    } else {
        Err(ApiError::Serde)
    }
}

/// A WebSocket response.
#[derive(Debug, Clone, PartialEq, Eq, Hash)]
pub struct WsResponse {
    /// The optional message, an empty string when missing or null.
    pub message: String,
    /// The actual data.
    pub data: WsResponseData,
}

} // verus!
