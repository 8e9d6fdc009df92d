//! Models of users and friend lists.

use vstd::prelude::*;

use crate::model::assets::{AssetBase, AssetBaseWithCategories};
use crate::model::featureds::FeaturedItem;
use crate::wire;

verus! {

/// Basic details about an user.
#[derive(Debug, Clone, PartialEq, Eq, Hash)]
pub struct UserBase {
    /// The ID of the user.
    pub id: crate::id::User,
    /// The display name of the user.
    pub name: String,
    /// The user's icon.
    pub image_url: String,
}

/// Standard details about an user.
#[derive(Debug, Clone, PartialEq, Eq, Hash)]
pub struct UserDetails {
    /// The basic details of the user.
    pub base: UserBase,
    /// The user's rank.
    pub rank: String,
    /// The user's featured badge.
    pub featured_badge: FeaturedItem,
    /// The user's featured group.
    pub featured_group: FeaturedItem,
    /// The user's current avatar.
    pub avatar: AssetBase,
}

/// Authentication success response.
#[derive(Clone, PartialEq, Eq, Hash)]
pub struct UserAuth {
    /// The username that the authentication is for.
    pub username: String,
    /// The access key to authenticate future requests with.
    pub access_key: String,
    /// The ID of the user that the authentication is for.
    pub user_id: crate::id::User,
    /// The ID of the avatar that the user had selected at the time of the
    /// response.
    pub current_avatar: crate::id::Asset,
    /// The ID of the home world that the user had selected at the time of
    /// the response.
    pub current_home_world: crate::id::Asset,
    /// An URL to a video downloader executable.
    pub video_url_resolver_executable: String,
    /// An URL to a hash file for the video downloader executable.
    pub video_url_resolver_hashes: String,
    /// Users that were blocked by the user at the time of the response.
    pub blocked_users: Vec<String>,
}

impl UserAuth {
    /// Every field of the display form except the access key, which is
    /// written as five asterisks; the result is built without reading the
    /// key at all.
    pub open spec fn redacted_spec(self) -> Seq<char> {
        "UserAuth { username: "@ + wire::json_string(self.username@)
            + ", access_key: \"*****\", user_id: "@ + wire::json_string(self.user_id.0@)
            + ", current_avatar: "@ + wire::json_string(self.current_avatar.0@)
            + ", current_home_world: "@ + wire::json_string(self.current_home_world.0@)
            + ", video_url_resolver_executable: "@ + wire::json_string(
            self.video_url_resolver_executable@,
        ) + ", video_url_resolver_hashes: "@ + wire::json_string(self.video_url_resolver_hashes@)
            + ", blocked_users: "@ + "["@ + wire::quoted_list(self.blocked_users.deep_view())
            + "]"@ + " }"@
    }

    /// A display form that never contains the access key.
    pub fn redacted(&self) -> (r: String)
        ensures
            r@ == self.redacted_spec(),
    {
        let mut r = String::from_str("UserAuth { username: ");
        let q_username = wire::json_quote(self.username.as_str());
        r.append(q_username.as_str());
        r.append(", access_key: \"*****\", user_id: ");
        let q_user_id = wire::json_quote(self.user_id.as_ref());
        r.append(q_user_id.as_str());
        r.append(", current_avatar: ");
        let q_avatar = wire::json_quote(self.current_avatar.as_ref());
        r.append(q_avatar.as_str());
        r.append(", current_home_world: ");
        let q_home = wire::json_quote(self.current_home_world.as_ref());
        r.append(q_home.as_str());
        r.append(", video_url_resolver_executable: ");
        let q_exe = wire::json_quote(self.video_url_resolver_executable.as_str());
        r.append(q_exe.as_str());
        r.append(", video_url_resolver_hashes: ");
        let q_hashes = wire::json_quote(self.video_url_resolver_hashes.as_str());
        r.append(q_hashes.as_str());
        r.append(", blocked_users: ");
        let blocked = wire::quoted_list_str(&self.blocked_users);
        r.append(blocked.as_str());
        r.append(" }");
        proof {
            assert(r@ =~= self.redacted_spec());
        }
        r
    }
}

/// A list of friends.
#[derive(Debug, Clone, PartialEq, Eq, Hash)]
pub struct Friends(pub Vec<AssetBaseWithCategories>);

/// A list of friend requests.
#[derive(Debug, Clone, PartialEq, Eq, Hash)]
pub struct FriendRequests(pub Vec<AssetBase>);

/// A change event of an user's status.
#[derive(Debug, Clone, PartialEq, Eq, Hash)]
pub struct UserOnlineStatusChange {
    /// The ID of the user.
    pub id: crate::id::User,
    /// If the user is now online or offline.
    pub is_online: bool,
}

/// A list of user online status change events.
#[derive(Debug, Clone, PartialEq, Eq, Hash)]
pub struct OnlineUserStatusChanges(pub Vec<UserOnlineStatusChange>);

} // verus!
