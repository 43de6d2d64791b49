//! Plain value types: names, identities, map kinds, addresses, actions,
//! ownership records and the error taxonomy.

use vstd::prelude::*;

verus! {

/// A 256-bit network name, stored as four 64-bit words (`w0` least
/// significant).
#[derive(Clone, Copy, PartialEq, Eq, Structural, Hash, PartialOrd, Ord, Debug)]
pub struct XorName {
    pub w0: u64,
    pub w1: u64,
    pub w2: u64,
    pub w3: u64,
}

/// The public identity of a user, a group, or a replica actor, stored as
/// four 64-bit words (`w0` least significant).
#[derive(Clone, Copy, PartialEq, Eq, Structural, Hash, PartialOrd, Ord, Debug)]
pub struct PublicKey {
    pub w0: u64,
    pub w1: u64,
    pub w2: u64,
    pub w3: u64,
}

/// Why a call failed.
#[derive(Clone, Copy, PartialEq, Eq, Structural, Hash, Debug)]
pub enum Error {
    /// The requester may not perform the action.
    AccessDenied,
    /// The call is structurally illegal for the current state or kind.
    InvalidOperation,
    /// No entry stored under the given key, or an index out of range.
    NoSuchEntry,
    /// An entry already exists under the given key.
    EntryExists,
    /// Textual input could not be decoded.
    FailedToParse,
}

/// Set of actions that can be performed on a map.
#[derive(Clone, Copy, PartialEq, Eq, Structural, Hash, Debug)]
pub enum Action {
    /// Permission to read entries.
    Read,
    /// Permission to insert new entries.
    Insert,
    /// Permission to update existing entries.
    Update,
    /// Permission to delete existing entries.
    Delete,
    /// Permission to modify permissions for other users.
    ManagePermissions,
}

/// Kind of a map.
#[derive(Clone, Copy, PartialEq, Eq, Structural, Hash, PartialOrd, Ord, Debug)]
pub enum Kind {
    /// Public map.
    Public,
    /// Private map.
    Private,
}

impl Kind {
    /// Returns true if public.
    pub fn is_pub(self) -> (r: bool)
        ensures
            r == (self == Kind::Public),
    {
        match self {
            Kind::Public => true,
            Kind::Private => false,
        }
    }

    /// Returns true if private.
    pub fn is_priv(self) -> (r: bool)
        ensures
            r == (self == Kind::Private),
    {
        !self.is_pub()
    }
}

/// Address of a map: its 256-bit name, a numeric tag, and its kind, fixed
/// for the lifetime of the map.
#[derive(Clone, Copy, PartialEq, Eq, Structural, Hash, PartialOrd, Ord, Debug)]
pub enum Address {
    /// Public map namespace.
    Public {
        /// Name.
        name: XorName,
        /// Tag.
        tag: u64,
    },
    /// Private map namespace.
    Private {
        /// Name.
        name: XorName,
        /// Tag.
        tag: u64,
    },
}

impl Address {
    /// The kind this address belongs to.
    pub open spec fn spec_kind(self) -> Kind {
        match self {
            Address::Public { .. } => Kind::Public,
            Address::Private { .. } => Kind::Private,
        }
    }

    /// The name this address carries.
    pub open spec fn spec_name(self) -> XorName {
        match self {
            Address::Public { name, .. } => name,
            Address::Private { name, .. } => name,
        }
    }

    /// The tag this address carries.
    pub open spec fn spec_tag(self) -> u64 {
        match self {
            Address::Public { tag, .. } => tag,
            Address::Private { tag, .. } => tag,
        }
    }

    /// Constructs a new `Address` given `kind`, `name`, and `tag`.
    pub fn from_kind(kind: Kind, name: XorName, tag: u64) -> (r: Self)
        ensures
            r.spec_kind() == kind,
            r.spec_name() == name,
            r.spec_tag() == tag,
    {
        match kind {
            Kind::Public => Address::Public { name, tag },
            Kind::Private => Address::Private { name, tag },
        }
    }

    /// Returns the kind.
    pub fn kind(&self) -> (r: Kind)
        ensures
            r == self.spec_kind(),
    {
        match self {
            Address::Public { .. } => Kind::Public,
            Address::Private { .. } => Kind::Private,
        }
    }

    /// Returns the name.
    pub fn name(&self) -> (r: &XorName)
        ensures
            *r == self.spec_name(),
    {
        match self {
            Address::Public { name, .. } => name,
            Address::Private { name, .. } => name,
        }
    }

    /// Returns the tag.
    pub fn tag(&self) -> (r: u64)
        ensures
            r == self.spec_tag(),
    {
        match self {
            Address::Public { tag, .. } => *tag,
            Address::Private { tag, .. } => *tag,
        }
    }

    /// Returns true if public.
    pub fn is_public(&self) -> (r: bool)
        ensures
            r == (self.spec_kind() == Kind::Public),
    {
        self.kind().is_pub()
    }

    /// Returns true if private.
    pub fn is_private(&self) -> (r: bool)
        ensures
            r == (self.spec_kind() == Kind::Private),
    {
        self.kind().is_priv()
    }
}

/// An owner could represent an individual user, or a group of users,
/// depending on the `public_key` type.
#[derive(Clone, Copy, PartialEq, Eq, Structural, Hash, PartialOrd, Ord, Debug)]
pub struct Owner {
    /// Public key.
    pub public_key: PublicKey,
    /// The current version of the data when this ownership change happened.
    pub map_version: u64,
    /// The current index of the permissions when this ownership change
    /// happened.
    pub permissions_index: u64,
}

/// User that can access a map.
#[derive(Clone, Copy, PartialEq, Eq, Structural, Hash, PartialOrd, Ord, Debug)]
pub enum User {
    /// Any user.
    Anyone,
    /// User identified by its public key.
    Key(PublicKey),
}

/// An index into the visible entry list, counted from either end.
#[derive(Clone, Copy, PartialEq, Eq, Structural, Hash, Debug)]
pub enum SDataIndex {
    /// Absolute position, counted from the start.
    FromStart(u64),
    /// Relative position, counted back from past-the-end.
    FromEnd(u64),
}

} // verus!
