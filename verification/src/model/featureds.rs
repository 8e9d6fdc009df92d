//! Featured profile items.

use vstd::prelude::*;

verus! {

/// A featured item showcased on an user's profile.
#[derive(Debug, Clone, PartialEq, Eq, Hash)]
pub struct FeaturedItem {
    /// The title to display of the item.
    pub name: String,
    /// An URL of the item's image.
    pub image: String,
}

} // verus!
