//! Wrappers for ChilloutVR IDs, as the response models use them.
//!
//! Wrapping the IDs in newtypes makes sure different kinds of IDs are not
//! accidentally compared with each other.  The IDs are handled as
//! case-sensitive opaque strings.

use vstd::prelude::*;

verus! {

/// An ID of a ChilloutVR User.
#[derive(Clone, Debug, PartialEq, Eq, Hash)]
pub struct User(pub String);

impl User {
    /// Wraps a string as this kind of ID.
    pub fn new(v: String) -> (r: Self)
        ensures
            r.0@ == v@,
    {
        User(v)
    }

    /// The ID as a string slice.
    pub fn as_ref(&self) -> (r: &str)
        ensures
            r@ == self.0@,
    {
        self.0.as_str()
    }

    /// The ID weakened to an ID of any kind.
    pub fn into_any(self) -> (r: Any)
        ensures
            r == Any::User(self),
    {
        Any::User(self)
    }
}

/// An ID of a ChilloutVR Instance.
#[derive(Clone, Debug, PartialEq, Eq, Hash)]
pub struct Instance(pub String);

impl Instance {
    /// Wraps a string as this kind of ID.
    pub fn new(v: String) -> (r: Self)
        ensures
            r.0@ == v@,
    {
        Instance(v)
    }

    /// The ID as a string slice.
    pub fn as_ref(&self) -> (r: &str)
        ensures
            r@ == self.0@,
    {
        self.0.as_str()
    }

    /// The ID weakened to an ID of any kind.
    pub fn into_any(self) -> (r: Any)
        ensures
            r == Any::Instance(self),
    {
        Any::Instance(self)
    }
}

/// An ID of a ChilloutVR Asset.
#[derive(Clone, Debug, PartialEq, Eq, Hash)]
pub struct Asset(pub String);

impl Asset {
    /// Wraps a string as this kind of ID.
    pub fn new(v: String) -> (r: Self)
        ensures
            r.0@ == v@,
    {
        Asset(v)
    }

    /// The ID as a string slice.
    pub fn as_ref(&self) -> (r: &str)
        ensures
            r@ == self.0@,
    {
        self.0.as_str()
    }

    /// The ID weakened to an ID of any kind.
    pub fn into_any(self) -> (r: Any)
        ensures
            r == Any::Asset(self),
    {
        Any::Asset(self)
    }
}

/// An ID of a ChilloutVR Invite.
#[derive(Clone, Debug, PartialEq, Eq, Hash)]
pub struct Invite(pub String);

impl Invite {
    /// Wraps a string as this kind of ID.
    pub fn new(v: String) -> (r: Self)
        ensures
            r.0@ == v@,
    {
        Invite(v)
    }

    /// The ID as a string slice.
    pub fn as_ref(&self) -> (r: &str)
        ensures
            r@ == self.0@,
    {
        self.0.as_str()
    }

    /// The ID weakened to an ID of any kind.
    pub fn into_any(self) -> (r: Any)
        ensures
            r == Any::Invite(self),
    {
        Any::Invite(self)
    }
}

/// Any of the ChilloutVR IDs.
#[derive(Clone, Debug, PartialEq, Eq, Hash)]
pub enum Any {
    /// An user ID.
    User(User),
    /// An instance ID.
    Instance(Instance),
    /// An asset ID.
    Asset(Asset),
    /// An invite ID.
    Invite(Invite),
}

impl Any {
    /// The text of whichever ID this is.
    pub open spec fn text(self) -> Seq<char> {
        match self {
            Any::User(v) => v.0@,
            Any::Instance(v) => v.0@,
            Any::Asset(v) => v.0@,
            Any::Invite(v) => v.0@,
        }
    }

    /// Extracts a string slice containing the entire inner ID.
    pub fn as_ref(&self) -> (r: &str)
        ensures
            r@ == self.text(),
    {
        match self {
            Any::User(v) => v.as_ref(),
            Any::Instance(v) => v.as_ref(),
            Any::Asset(v) => v.as_ref(),
            Any::Invite(v) => v.as_ref(),
        }
    }
}

} // verus!
