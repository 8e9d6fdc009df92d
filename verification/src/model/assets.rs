//! Models of assets: worlds, avatars and props, and their tags.

use vstd::prelude::*;

use crate::model::users::UserBase;
use crate::wire;

verus! {

/// A tag of an asset, as the content guidelines define them.  A tag the
/// catalogue does not know is kept verbatim under `Other`.
#[derive(Debug, Clone, PartialEq, Eq, Hash)]
pub enum AssetTag {
    /// The content contains gore of any kind.
    Gore,
    /// The content contains violence.
    Violence,
    /// The content contains horror elements.
    Horror,
    /// The content contains jump scares.
    Jumpscare,
    /// The avatar or prop is very small.
    ExtremelySmall,
    /// The avatar or prop is very huge.
    ExtremelyHuge,
    /// Large amounts of visible skin or suggestive poses.
    Suggestive,
    /// Content not to be seen by children.
    Nudity,
    /// A lot of bright materials.
    ExtremelyBright,
    /// Rapidly changing or flashing colors.
    FlashingColors,
    /// Rapidly changing or flashing lights of any kind.
    FlashingLights,
    /// The content contains particle systems.
    ParticleSystems,
    /// The content contains screen effects.
    ScreenEffects,
    /// The content contains music.
    ContainsMusic,
    /// The content contains loud audio.
    LoudAudio,
    /// Audio that plays immediately after the content is loaded.
    SpawnAudio,
    /// Audio sources with a long distance fall off.
    LongRangeAudio,
    /// A new, unsupported or nonstandard tag.
    Other(String),
}

/// The tag a known tag name stands for.
pub open spec fn known_tag(s: Seq<char>) -> Option<AssetTag> {
    if s == "Gore"@ {
        Some(AssetTag::Gore)
    } else if s == "Violence"@ {
        Some(AssetTag::Violence)
    } else if s == "Horror"@ {
        Some(AssetTag::Horror)
    } else if s == "Jumpscare"@ {
        Some(AssetTag::Jumpscare)
    } else if s == "ExtremelySmall"@ {
        Some(AssetTag::ExtremelySmall)
    } else if s == "ExtremelyHuge"@ {
        Some(AssetTag::ExtremelyHuge)
    } else if s == "Suggestive"@ {
        Some(AssetTag::Suggestive)
    } else if s == "Nudity"@ {
        Some(AssetTag::Nudity)
    } else if s == "ExtremelyBright"@ {
        Some(AssetTag::ExtremelyBright)
    } else if s == "FlashingColors"@ {
        Some(AssetTag::FlashingColors)
    } else if s == "FlashingLights"@ {
        Some(AssetTag::FlashingLights)
    } else if s == "ParticleSystems"@ {
        Some(AssetTag::ParticleSystems)
    } else if s == "ScreenEffects"@ {
        Some(AssetTag::ScreenEffects)
    } else if s == "ContainsMusic"@ {
        Some(AssetTag::ContainsMusic)
    } else if s == "LoudAudio"@ {
        Some(AssetTag::LoudAudio)
    } else if s == "SpawnAudio"@ {
        Some(AssetTag::SpawnAudio)
    } else if s == "LongRangeAudio"@ {
        Some(AssetTag::LongRangeAudio)
    } else {
        None
    }
}

impl AssetTag {
    /// Reads a tag from its name on the wire; an unknown name is kept
    /// verbatim under `Other`.
    pub fn from(value: String) -> (r: Self)
        ensures
            match known_tag(value@) {
                Some(t) => r == t,
                None => r matches AssetTag::Other(o) && o@ == value@,
            },
    {
        if wire::str_eq(value.as_str(), "Gore") {
            AssetTag::Gore
        } else if wire::str_eq(value.as_str(), "Violence") {
            AssetTag::Violence
        } else if wire::str_eq(value.as_str(), "Horror") {
            AssetTag::Horror
        } else if wire::str_eq(value.as_str(), "Jumpscare") {
            AssetTag::Jumpscare
        } else if wire::str_eq(value.as_str(), "ExtremelySmall") {
            AssetTag::ExtremelySmall
        } else if wire::str_eq(value.as_str(), "ExtremelyHuge") {
            AssetTag::ExtremelyHuge
        } else if wire::str_eq(value.as_str(), "Suggestive") {
            AssetTag::Suggestive
        } else if wire::str_eq(value.as_str(), "Nudity") {
            AssetTag::Nudity
        } else if wire::str_eq(value.as_str(), "ExtremelyBright") {
            AssetTag::ExtremelyBright
        } else if wire::str_eq(value.as_str(), "FlashingColors") {
            AssetTag::FlashingColors
        } else if wire::str_eq(value.as_str(), "FlashingLights") {
            AssetTag::FlashingLights
        } else if wire::str_eq(value.as_str(), "ParticleSystems") {
            AssetTag::ParticleSystems
        } else if wire::str_eq(value.as_str(), "ScreenEffects") {
            AssetTag::ScreenEffects
        } else if wire::str_eq(value.as_str(), "ContainsMusic") {
            AssetTag::ContainsMusic
        } else if wire::str_eq(value.as_str(), "LoudAudio") {
            AssetTag::LoudAudio
        } else if wire::str_eq(value.as_str(), "SpawnAudio") {
            AssetTag::SpawnAudio
        } else if wire::str_eq(value.as_str(), "LongRangeAudio") {
            AssetTag::LongRangeAudio
        } else {
            AssetTag::Other(value)
        }
    }
}

/// Very minimal details of an asset such as a world or an avatar.
#[derive(Debug, Clone, PartialEq, Eq, Hash)]
pub struct AssetBase {
    /// The ID of the asset.
    pub id: crate::id::Asset,
    /// The display name of the asset.
    pub name: String,
    /// The preview image's URL.
    pub image_url: String,
}

/// Details of an asset, including possible tags.
#[derive(Debug, Clone, PartialEq, Eq, Hash)]
pub struct AssetBaseWithTags {
    /// Base details of the asset.
    pub base: AssetBase,
    /// The tags of the asset.
    pub tags: Vec<AssetTag>,
}

/// Details of an asset, including possible categories.
#[derive(Debug, Clone, PartialEq, Eq, Hash)]
pub struct AssetBaseWithCategories {
    /// Base details of the asset.
    pub base: AssetBase,
    /// The categories of the asset.
    pub categories: Vec<String>,
}

/// Details of an asset, including the actual file's details.
#[derive(Debug, Clone, PartialEq, Eq, Hash)]
pub struct AssetFile {
    /// Base details of the asset.
    pub asset: AssetBaseWithTags,
    /// The ID of the actual backing file.
    pub file_id: crate::id::File,
    /// The size of the file.
    pub size: String,
    /// The base64 encoded key used for the crc32 decoding of the file.
    pub key: String,
    /// The MD5 hash of the file, which can be used for integrity checks.
    pub hash: String,
    /// The location of the file.
    pub url: String,
}

/// Details about an avatar.
#[derive(Debug, Clone, PartialEq, Eq, Hash)]
pub struct AvatarDetails {
    /// Base details of the asset.
    pub base: AssetBaseWithCategories,
    /// The description of the avatar.
    pub description: String,
    /// The avatar uploader's ID.
    pub author_id: crate::id::User,
}

/// Extended details of an avatar.
#[derive(Debug, Clone, PartialEq, Eq, Hash)]
pub struct AvatarAssetDetails {
    /// Base details of the asset.
    pub base: AssetBaseWithTags,
    /// The description of the avatar.
    pub description: String,
    /// Details of the uploader.
    pub user: UserBase,
    /// When the avatar was first uploaded at, as the service wrote it.
    pub uploaded_at: String,
    /// When the avatar was last uploaded at, as the service wrote it.
    pub updated_at: String,
    /// If the currently authenticated user is allowed to try to switch to
    /// it.
    pub switch_permitted: bool,
    /// If the avatar is public.
    pub is_published: bool,
    /// The categories of the avatar.
    pub categories: Vec<String>,
    /// How large the avatar is.
    pub filesize: u64,
}

} // verus!
