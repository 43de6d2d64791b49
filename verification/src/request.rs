//! The request layer a transport handler dispatches on: every request a
//! vault accepts for this data type, its authorisation class, the
//! destination it routes to, and the error response whose shape mirrors
//! the request's success response.

use vstd::prelude::*;

use crate::entries::{EntryOp, Key, Value};
use crate::hist::{OwnerOp, PermissionsOp};
use crate::map_data::Data;
use crate::perms::{Permissions, UserPermissions};
use crate::types::{Address, Error, Kind, Owner, SDataIndex, User, XorName};

verus! {

/// The general class of a request.
pub enum Type {
    /// A read of publicly addressed data.
    PublicGet,
    /// A read of privately addressed data.
    PrivateGet,
    /// A mutation.
    Mutation,
}

/// The authorisation a transport layer must have established before
/// forwarding a request.
pub enum AuthorisationKind {
    /// Read access to public data.
    GetPub,
    /// Read access to private data.
    GetPriv,
    /// Mutation access.
    Mutation,
}

/// A mutation bundled with the address of the map it targets.
pub struct SDataMutationOperation<T> {
    /// The address of the targeted map.
    pub address: Address,
    /// The replicable operation to merge.
    pub crdt_op: T,
}

/// A response, one variant per request shape; each carries the matching
/// result so a caller can pattern-match on kind without inspecting the
/// payload first.
pub enum Response {
    /// Whole stored map.
    GetSData(Result<Data, Error>),
    /// A range of visible entries.
    GetSDataRange(Result<Vec<(Key, Value)>, Error>),
    /// The last visible entry.
    GetSDataLastEntry(Result<(Key, Value), Error>),
    /// The latest permission snapshot.
    GetSDataPermissions(Result<Permissions, Error>),
    /// What the latest snapshot records for one user.
    GetSDataUserPermissions(Result<UserPermissions, Error>),
    /// The current ownership record.
    GetSDataOwner(Result<Owner, Error>),
    /// The outcome of a mutation.
    Mutation(Result<(), Error>),
}

/// A request that is sent to vaults for this data type.
pub enum SDataRequest {
    /// Store a new map onto the network.
    Store(Data),
    /// Get a map from the network.
    Get(Address),
    /// Delete a private map. This operation MUST return an error if
    /// applied to a public map. Only the current owner(s) can perform
    /// this action.
    Delete(Address),
    /// Get a range of visible entries from a map on the network.
    GetRange {
        /// Map address.
        address: Address,
        /// Range of entries to fetch, each end counted from either end
        /// of the visible list.
        range: (SDataIndex, SDataIndex),
    },
    /// Get the last visible entry of a map.
    GetLastEntry(Address),
    /// List all current users' permissions.
    GetPermissions(Address),
    /// Get current permissions for a specified user.
    GetUserPermissions {
        /// Map address.
        address: Address,
        /// User to get permissions for.
        user: User,
    },
    /// Get the current owner.
    GetOwner(Address),
    /// Append new permissions for a public map.
    MutatePubPermissions(SDataMutationOperation<PermissionsOp>),
    /// Append new permissions for a private map.
    MutatePrivPermissions(SDataMutationOperation<PermissionsOp>),
    /// Append a new owner entry. Only the current owner(s) can perform
    /// this action.
    MutateOwner(SDataMutationOperation<OwnerOp>),
    /// Mutate the map's entries (insert, update or remove an entry).
    Mutate(SDataMutationOperation<EntryOp>),
}

impl SDataRequest {
    /// Whether the request only reads.
    pub open spec fn spec_is_get(self) -> bool {
        match self {
            SDataRequest::Get(_) => true,
            SDataRequest::GetRange { .. } => true,
            SDataRequest::GetLastEntry(_) => true,
            SDataRequest::GetPermissions(_) => true,
            SDataRequest::GetUserPermissions { .. } => true,
            SDataRequest::GetOwner(_) => true,
            _ => false,
        }
    }

    /// The address a request targets.
    pub open spec fn spec_address(self) -> Address {
        match self {
            SDataRequest::Store(data) => data.spec_map().address,
            SDataRequest::Get(address) => address,
            SDataRequest::Delete(address) => address,
            SDataRequest::GetRange { address, .. } => address,
            SDataRequest::GetLastEntry(address) => address,
            SDataRequest::GetPermissions(address) => address,
            SDataRequest::GetUserPermissions { address, .. } => address,
            SDataRequest::GetOwner(address) => address,
            SDataRequest::MutatePubPermissions(op) => op.address,
            SDataRequest::MutatePrivPermissions(op) => op.address,
            SDataRequest::MutateOwner(op) => op.address,
            SDataRequest::Mutate(op) => op.address,
        }
    }

    /// Get the `Type` of this request: reads split by the privacy of
    /// the address they target, everything else is a mutation.
    pub fn get_type(&self) -> (r: Type)
        ensures
            self.spec_is_get() && self.spec_address().spec_kind() == Kind::Public ==> r
                is PublicGet,
            self.spec_is_get() && self.spec_address().spec_kind() == Kind::Private ==> r
                is PrivateGet,
            !self.spec_is_get() ==> r is Mutation,
    {
        match self {
            SDataRequest::Get(address)
            | SDataRequest::GetRange { address, .. }
            | SDataRequest::GetLastEntry(address)
            | SDataRequest::GetPermissions(address)
            | SDataRequest::GetUserPermissions { address, .. }
            | SDataRequest::GetOwner(address) => {
                if address.is_public() {
                    Type::PublicGet
                } else {
                    Type::PrivateGet
                }
            },
            _ => Type::Mutation,
        }
    }

    /// Creates a `Response` containing an error, with the `Response`
    /// variant corresponding to the request variant.
    pub fn error_response(&self, error: Error) -> (r: Response)
        ensures
            r == match *self {
                SDataRequest::Get(_) => Response::GetSData(Err::<Data, Error>(error)),
                SDataRequest::GetRange { .. } => Response::GetSDataRange(
                    Err::<Vec<(Key, Value)>, Error>(error),
                ),
                SDataRequest::GetLastEntry(_) => Response::GetSDataLastEntry(
                    Err::<(Key, Value), Error>(error),
                ),
                SDataRequest::GetPermissions(_) => Response::GetSDataPermissions(
                    Err::<Permissions, Error>(error),
                ),
                SDataRequest::GetUserPermissions { .. } => Response::GetSDataUserPermissions(
                    Err::<UserPermissions, Error>(error),
                ),
                SDataRequest::GetOwner(_) => Response::GetSDataOwner(Err::<Owner, Error>(error)),
                _ => Response::Mutation(Err::<(), Error>(error)),
            },
    {
        match self {
            SDataRequest::Get(_) => Response::GetSData(Err(error)),
            SDataRequest::GetRange { .. } => Response::GetSDataRange(Err(error)),
            SDataRequest::GetLastEntry(_) => Response::GetSDataLastEntry(Err(error)),
            SDataRequest::GetPermissions(_) => Response::GetSDataPermissions(Err(error)),
            SDataRequest::GetUserPermissions { .. } => Response::GetSDataUserPermissions(
                Err(error),
            ),
            SDataRequest::GetOwner(_) => Response::GetSDataOwner(Err(error)),
            _ => Response::Mutation(Err(error)),
        }
    }

    /// Returns the type of authorisation needed for the request: reads
    /// split by the privacy of the address, everything else needs
    /// mutation rights.
    pub fn authorisation_kind(&self) -> (r: AuthorisationKind)
        ensures
            self.spec_is_get() && self.spec_address().spec_kind() == Kind::Public ==> r is GetPub,
            self.spec_is_get() && self.spec_address().spec_kind() == Kind::Private ==> r
                is GetPriv,
            !self.spec_is_get() ==> r is Mutation,
    {
        match self {
            SDataRequest::Get(address)
            | SDataRequest::GetRange { address, .. }
            | SDataRequest::GetLastEntry(address)
            | SDataRequest::GetPermissions(address)
            | SDataRequest::GetUserPermissions { address, .. }
            | SDataRequest::GetOwner(address) => {
                if address.is_public() {
                    AuthorisationKind::GetPub
                } else {
                    AuthorisationKind::GetPriv
                }
            },
            _ => AuthorisationKind::Mutation,
        }
    }

    /// The label of this request's variant.
    pub open spec fn spec_variant_name(self) -> Seq<char> {
        match self {
            SDataRequest::Store(_) => "StoreSData"@,
            SDataRequest::Get(_) => "GetSData"@,
            SDataRequest::Delete(_) => "DeleteSData"@,
            SDataRequest::GetRange { .. } => "GetSDataRange"@,
            SDataRequest::GetLastEntry(_) => "GetSDataLastEntry"@,
            SDataRequest::GetPermissions(_) => "GetSDataPermissions"@,
            SDataRequest::GetUserPermissions { .. } => "GetSDataUserPermissions"@,
            SDataRequest::GetOwner(_) => "GetSDataOwner"@,
            SDataRequest::MutatePubPermissions(_) => "MutateSDataPubPermissions"@,
            SDataRequest::MutatePrivPermissions(_) => "MutateSDataPrivPermissions"@,
            SDataRequest::MutateOwner(_) => "MutateSDataOwner"@,
            SDataRequest::Mutate(_) => "MutateSData"@,
        }
    }

    /// Returns the label naming this request's variant, for diagnostics.
    pub fn variant_name(&self) -> (r: &'static str)
        ensures
            r@ == self.spec_variant_name(),
    {
        match self {
            SDataRequest::Store(_) => "StoreSData",
            SDataRequest::Get(_) => "GetSData",
            SDataRequest::Delete(_) => "DeleteSData",
            SDataRequest::GetRange { .. } => "GetSDataRange",
            SDataRequest::GetLastEntry(_) => "GetSDataLastEntry",
            SDataRequest::GetPermissions(_) => "GetSDataPermissions",
            SDataRequest::GetUserPermissions { .. } => "GetSDataUserPermissions",
            SDataRequest::GetOwner(_) => "GetSDataOwner",
            SDataRequest::MutatePubPermissions(_) => "MutateSDataPubPermissions",
            SDataRequest::MutatePrivPermissions(_) => "MutateSDataPrivPermissions",
            SDataRequest::MutateOwner(_) => "MutateSDataOwner",
            SDataRequest::Mutate(_) => "MutateSData",
        }
    }

    /// Returns the name of the destination for the request: every
    /// request routes to the name of the address it targets.
    pub fn dest_address(&self) -> (r: Option<XorName>)
        ensures
            r == Some(self.spec_address().spec_name()),
    {
        match self {
            SDataRequest::Store(data) => Some(*data.name()),
            SDataRequest::Get(address)
            | SDataRequest::Delete(address)
            | SDataRequest::GetRange { address, .. }
            | SDataRequest::GetLastEntry(address) => Some(*address.name()),
            SDataRequest::GetPermissions(address)
            | SDataRequest::GetUserPermissions { address, .. }
            | SDataRequest::GetOwner(address) => Some(*address.name()),
            SDataRequest::MutatePubPermissions(op) => Some(*op.address.name()),
            SDataRequest::MutatePrivPermissions(op) => Some(*op.address.name()),
            SDataRequest::MutateOwner(op) => Some(*op.address.name()),
            SDataRequest::Mutate(op) => Some(*op.address.name()),
        }
    }
}

} // verus!
