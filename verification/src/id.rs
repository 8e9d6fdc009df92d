//! Wrappers for CVR IDs.
//!
//! Wrapping the IDs in newtypes makes sure different kinds of CVR IDs are
//! not accidentally mixed up with each other: a function that wants a user
//! ID cannot be handed an instance ID.  The IDs are handled as
//! case-sensitive opaque strings.

use vstd::prelude::*;

verus! {

/// An ID of a CVR User.
#[derive(Clone, Debug, PartialEq, Eq, Hash)]
pub struct User(pub String);

impl User {
    /// Wraps a string as this kind of ID.
    pub fn new(v: String) -> (r: Self)
        ensures
            r.0@ == v@,
    {
        User(v)
    }

    /// The ID as a string slice.
    pub fn as_ref(&self) -> (r: &str)
        ensures
            r@ == self.0@,
    {
        self.0.as_str()
    }

    /// The ID as the string it wraps.
    pub fn into_string(self) -> (r: String)
        ensures
            r@ == self.0@,
    {
        self.0
    }

    /// The ID weakened to an ID of any kind.
    pub fn into_any(self) -> (r: Any)
        ensures
            r == Any::User(self),
    {
        Any::User(self)
    }
}

/// An ID of a CVR Instance.
#[derive(Clone, Debug, PartialEq, Eq, Hash)]
pub struct Instance(pub String);

impl Instance {
    /// Wraps a string as this kind of ID.
    pub fn new(v: String) -> (r: Self)
        ensures
            r.0@ == v@,
    {
        Instance(v)
    }

    /// The ID as a string slice.
    pub fn as_ref(&self) -> (r: &str)
        ensures
            r@ == self.0@,
    {
        self.0.as_str()
    }

    /// The ID as the string it wraps.
    pub fn into_string(self) -> (r: String)
        ensures
            r@ == self.0@,
    {
        self.0
    }

    /// The ID weakened to an ID of any kind.
    pub fn into_any(self) -> (r: Any)
        ensures
            r == Any::Instance(self),
    {
        Any::Instance(self)
    }
}

/// An ID of a CVR Invite.
#[derive(Clone, Debug, PartialEq, Eq, Hash)]
pub struct Invite(pub String);

impl Invite {
    /// Wraps a string as this kind of ID.
    pub fn new(v: String) -> (r: Self)
        ensures
            r.0@ == v@,
    {
        Invite(v)
    }

    /// The ID as a string slice.
    pub fn as_ref(&self) -> (r: &str)
        ensures
            r@ == self.0@,
    {
        self.0.as_str()
    }

    /// The ID as the string it wraps.
    pub fn into_string(self) -> (r: String)
        ensures
            r@ == self.0@,
    {
        self.0
    }

    /// The ID weakened to an ID of any kind.
    pub fn into_any(self) -> (r: Any)
        ensures
            r == Any::Invite(self),
    {
        Any::Invite(self)
    }
}

/// An ID of a CVR Asset.
#[derive(Clone, Debug, PartialEq, Eq, Hash)]
pub struct Asset(pub String);

impl Asset {
    /// Wraps a string as this kind of ID.
    pub fn new(v: String) -> (r: Self)
        ensures
            r.0@ == v@,
    {
        Asset(v)
    }

    /// The ID as a string slice.
    pub fn as_ref(&self) -> (r: &str)
        ensures
            r@ == self.0@,
    {
        self.0.as_str()
    }

    /// The ID as the string it wraps.
    pub fn into_string(self) -> (r: String)
        ensures
            r@ == self.0@,
    {
        self.0
    }

    /// The ID weakened to an ID of any kind.
    pub fn into_any(self) -> (r: Any)
        ensures
            r == Any::Asset(self),
    {
        Any::Asset(self)
    }
}

/// An ID of a CVR Category.  These IDs are plain, unlike others which seem
/// to be UUIDs.
#[derive(Clone, Debug, PartialEq, Eq, Hash)]
pub struct Category(pub String);

impl Category {
    /// Wraps a string as this kind of ID.
    pub fn new(v: String) -> (r: Self)
        ensures
            r.0@ == v@,
    {
        Category(v)
    }

    /// The ID as a string slice.
    pub fn as_ref(&self) -> (r: &str)
        ensures
            r@ == self.0@,
    {
        self.0.as_str()
    }

    /// The ID as the string it wraps.
    pub fn into_string(self) -> (r: String)
        ensures
            r@ == self.0@,
    {
        self.0
    }

    /// The ID weakened to an ID of any kind.
    pub fn into_any(self) -> (r: Any)
        ensures
            r == Any::Category(self),
    {
        Any::Category(self)
    }
}

/// An ID of a CVR File.
#[derive(Clone, Debug, PartialEq, Eq, Hash)]
pub struct File(pub String);

impl File {
    /// Wraps a string as this kind of ID.
    pub fn new(v: String) -> (r: Self)
        ensures
            r.0@ == v@,
    {
        File(v)
    }

    /// The ID as a string slice.
    pub fn as_ref(&self) -> (r: &str)
        ensures
            r@ == self.0@,
    {
        self.0.as_str()
    }

    /// The ID as the string it wraps.
    pub fn into_string(self) -> (r: String)
        ensures
            r@ == self.0@,
    {
        self.0
    }

    /// The ID weakened to an ID of any kind.
    pub fn into_any(self) -> (r: Any)
        ensures
            r == Any::File(self),
    {
        Any::File(self)
    }
}

/// Any of the CVR IDs.
#[derive(Clone, Debug, PartialEq, Eq, Hash)]
pub enum Any {
    /// An user ID.
    User(User),
    /// An instance ID.
    Instance(Instance),
    /// An asset ID.
    Asset(Asset),
    /// An invite ID.
    Invite(Invite),
    /// A file's ID.
    File(File),
    /// A category's ID.
    Category(Category),
}

impl Any {
    /// The text of whichever ID this is.
    pub open spec fn text(self) -> Seq<char> {
        match self {
            Any::User(v) => v.0@,
            Any::Instance(v) => v.0@,
            Any::Asset(v) => v.0@,
            Any::Invite(v) => v.0@,
            Any::File(v) => v.0@,
            Any::Category(v) => v.0@,
        }
    }

    /// Extracts a string slice containing the entire inner ID.
    pub fn as_ref(&self) -> (r: &str)
        ensures
            r@ == self.text(),
    {
        match self {
            Any::User(v) => v.as_ref(),
            Any::Instance(v) => v.as_ref(),
            Any::Asset(v) => v.as_ref(),
            Any::Invite(v) => v.as_ref(),
            Any::File(v) => v.as_ref(),
            Any::Category(v) => v.as_ref(),
        }
    }
}

} // verus!
