//! The user's categories.

use vstd::prelude::*;

verus! {

/// A category.
#[derive(Debug, Clone, PartialEq, Eq, Hash)]
pub struct Category {
    /// The ID of the category.
    pub id: crate::id::Category,
    /// The name of the category.
    pub name: String,
}

/// Different categories.
#[derive(Debug, Clone, PartialEq, Eq, Hash)]
pub struct Categories {
    /// Avatar categories.
    pub avatars: Vec<Category>,
    /// World categories.
    pub worlds: Vec<Category>,
    /// Friend categories.
    pub friends: Vec<Category>,
    /// Prop categories.
    pub spawnables: Vec<Category>,
}

} // verus!
