//! Models of search results.

use vstd::prelude::*;

verus! {

/// The ID of a searches' result, which also tells the type of the search
/// result.
#[derive(Debug, Clone, PartialEq, Eq, Hash)]
pub enum SearchResultId {
    /// An user.
    User(crate::id::User),
    /// An avatar.
    Avatar(crate::id::Asset),
    /// A prop.
    Prop(crate::id::Asset),
    /// A world.
    World(crate::id::Asset),
}

impl SearchResultId {
    /// The result's ID weakened to an ID of any kind.
    pub fn into_any(self) -> (r: crate::id::Any)
        ensures
            match self {
                SearchResultId::User(v) => r == crate::id::Any::User(v),
                SearchResultId::Avatar(v) => r == crate::id::Any::Asset(v),
                SearchResultId::Prop(v) => r == crate::id::Any::Asset(v),
                SearchResultId::World(v) => r == crate::id::Any::Asset(v),
            },
    {
        match self {
            SearchResultId::User(v) => v.into_any(),
            SearchResultId::Avatar(v) => v.into_any(),
            SearchResultId::Prop(v) => v.into_any(),
            SearchResultId::World(v) => v.into_any(),
        }
    }
}

/// A search result.
#[derive(Debug, Clone, PartialEq, Eq, Hash)]
pub struct SearchResult {
    /// The ID of the search result, which also tells the type of the
    /// result.
    pub id: SearchResultId,
    /// The display name of the search result.
    pub name: String,
    /// An URL to the preview image.
    pub image_url: String,
}

/// Results for a search.
#[derive(Debug, Clone, PartialEq, Eq, Hash)]
pub struct SearchResults(pub Vec<SearchResult>);

} // verus!
