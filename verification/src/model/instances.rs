//! Models of instances.

use vstd::prelude::*;

use crate::model::assets::{AssetBase, AssetBaseWithTags};
use crate::model::users::{UserBase, UserDetails};

verus! {

/// Who can join the instance.
#[derive(Debug, Clone, Copy, PartialEq, Eq, Hash, Structural)]
pub enum InstancePrivacy {
    /// Anyone can join.
    Public,
    /// Any friend of anyone in the instance can join.
    FriendsOfFriends,
    /// Friends of the instance owner can join.
    Friends,
    /// Members of the instance's group can join.
    Group,
    /// Anyone in the instance can invite, and joining needs an invite.
    EveryoneCanInvite,
    /// The owner can invite, and joining needs an invite.
    OwnerMustInvite,
}

/// The region of the instance.
#[derive(Debug, Clone, Copy, PartialEq, Eq, Hash, Structural)]
pub enum InstanceRegion {
    /// The instance is `eu`.
    Europe,
    /// The instance is `us`.
    UnitedStates,
    /// The instance is `as`.
    Asia,
}

/// Details about an instance.
#[derive(Debug, Clone, PartialEq, Eq, Hash)]
pub struct InstanceDetails {
    /// The instance's ID.
    pub id: crate::id::Instance,
    /// The name of the instance.
    pub name: String,
    /// Where around the world the instance is hosted.
    pub region: InstanceRegion,
    /// The ID of the game mode of the instance.
    pub game_mode_id: String,
    /// The name of the game mode of the instance.
    pub game_mode_name: String,
    /// The world that the instance is on.
    pub world: AssetBase,
    /// How many players can fit into the instance.
    pub max_players: u32,
    /// How many players are currently in the instance.
    pub current_player_count: u32,
    /// A list of the users currently in the instance.
    pub members: Vec<UserBase>,
}

/// Full details about an instance.
#[derive(Debug, Clone, PartialEq, Eq, Hash)]
pub struct ExtendedInstanceDetails {
    /// Base details about the instance.
    pub base: InstanceDetails,
    /// Who can join the instance.
    pub instance_setting_privacy: InstancePrivacy,
    /// Who created the instance.
    pub author: UserBase,
    /// Who is the current owner of the instance.
    pub owner: UserDetails,
    /// What world the instance is on.
    pub world: AssetBaseWithTags,
}

/// Details about the host of an instance.
#[derive(Debug, Clone, PartialEq, Eq, Hash)]
pub struct InstanceHost {
    /// The fully qualified domain name of the host.
    pub fqdn: String,
    /// The port to use for joining the instance.
    pub port: u32,
}

/// Details for joining an instance.
#[derive(Debug, Clone, PartialEq, Eq, Hash)]
pub struct InstanceJoinResponse {
    /// The instance host details.
    pub host: InstanceHost,
    /// An authentication token for joining the instance.
    pub jwt: String,
    /// Details of the instance's world.
    pub world: AssetBase,
}

} // verus!
