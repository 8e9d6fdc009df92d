//! Models of worlds and their instances.

use vstd::prelude::*;

use crate::model::assets::{AssetBase, AssetBaseWithTags};
use crate::model::instances::InstanceRegion;
use crate::model::users::UserBase;

verus! {

/// Details of the world that include player count.
#[derive(Debug, Clone, PartialEq, Eq, Hash)]
pub struct WorldListItem {
    /// The base details of the world asset.
    pub base: AssetBase,
    /// How many players are in instances of the world.
    pub player_count: u32,
}

/// Details about a world.
#[derive(Debug, Clone, PartialEq, Eq, Hash)]
pub struct WorldDetails {
    /// Basic details of the asset.
    pub base: AssetBaseWithTags,
    /// A description of the world.
    pub description: String,
    /// The uploader user's details.
    pub user: UserBase,
    /// When the world was first uploaded at, as the service wrote it.
    pub uploaded_at: String,
    /// When the world was last uploaded at, as the service wrote it.
    pub updated_at: String,
    /// If the currently authenticated user can join the world.
    pub switch_permitted: bool,
    /// If the world is public.
    pub is_published: bool,
    /// Possible categories of the world.
    pub categories: Vec<String>,
    /// The world asset file's size.
    pub filesize: u64,
}

/// An instance of the world.
#[derive(Debug, Clone, PartialEq, Eq, Hash)]
pub struct WorldInstance {
    /// The ID of the instance.
    pub id: crate::id::Instance,
    /// The name of the instance.
    pub name: String,
    /// How many players are in the instance.
    pub player_count: u32,
    /// How many players the instance can support.
    pub max_player_count: u32,
    /// What region the instance is in.
    pub region: InstanceRegion,
}

/// Details of a world's current status.
#[derive(Debug, Clone, PartialEq, Eq, Hash)]
pub struct WorldDetailsResponse {
    /// Details of instances that are using the world.
    pub instances: Vec<WorldInstance>,
    /// Details of the actual world.
    pub world: WorldDetails,
}

/// Very minimal details of a world.
#[derive(Debug, Clone, PartialEq, Eq, Hash)]
pub struct WorldDisplayDetails {
    /// The ID of the world.
    pub id: crate::id::Asset,
    /// The name of the world.
    pub name: String,
    /// The preview image of the world.
    pub image_url: String,
}

} // verus!
