//! The map core: a replicated key-value store composed with the two
//! append-only histories (permissions, owners). Every operation checks
//! access against the live tail of the histories before mutating, and a
//! failed call leaves the state exactly as it was.

use vstd::prelude::*;

use crate::entries::{
    apply_reg, bytes_clone, visible, EntryOp, EntryOpView, EntryStore, Key, RegMap, Value,
};
use crate::hist::{
    owner_actor_counter, owner_hist, owner_list_append, owner_list_apply, owner_list_last,
    owner_list_len, owner_list_new, owner_op_is_insert, owner_op_val, owner_op_wf, owner_seen,
    perm_actor_counter, perm_hist, perm_list_append, perm_list_apply, perm_list_last,
    perm_list_len, perm_list_new, perm_op_is_insert, perm_op_val, perm_op_wf, perm_seen,
    OwnerOp, PermissionsOp,
};
use crate::perms::{
    Permissions, PrivPermissions, PrivUserPermissions, PubPermissions, PubUserPermissions,
    UserPermissions,
};
use crate::types::{Action, Address, Error, Kind, Owner, PublicKey, SDataIndex, User, XorName};

verus! {

/// The visible entry pairs a vector holds.
pub open spec fn pairs_view(s: Seq<(Key, Value)>) -> Seq<(Seq<u8>, Seq<u8>)> {
    Seq::new(s.len(), |i: int| (s[i].0@, s[i].1@))
}

/// Where an index counted from either end lands in a list of length
/// `len`, if it lands at all.
pub open spec fn spec_resolve_index(ix: SDataIndex, len: int) -> Option<int> {
    match ix {
        SDataIndex::FromStart(i) => if i <= len {
            Some(i as int)
        } else {
            None
        },
        SDataIndex::FromEnd(i) => if i <= len {
            Some(len - i)
        } else {
            None
        },
    }
}

/// One replica's copy of a map: its fixed address, the actor identity
/// the replica stamps local operations with, the replicated entries,
/// and the permission and owner histories.
pub struct MapCrdt {
    /// Address on the network of this piece of data.
    pub address: Address,
    /// The identity local operations are stamped with.
    pub actor: PublicKey,
    /// The replicated entry store.
    pub entries: EntryStore,
    /// The history of permission snapshots, each a complete matrix.
    pub permissions: crdts::list::List<Permissions, PublicKey>,
    /// The history of owners.
    pub owners: crdts::list::List<Owner, PublicKey>,
    /// Whether an authorized whole-map delete removed this private map.
    pub removed: bool,
}

impl MapCrdt {
    /// The permission history, in its converged order.
    pub open spec fn perms_seq(self) -> Seq<Permissions> {
        perm_hist(self.permissions)
    }

    /// The owner history, in its converged order.
    pub open spec fn owners_seq(self) -> Seq<Owner> {
        owner_hist(self.owners)
    }

    /// The entry registers this replica holds.
    pub open spec fn entries_state(self) -> RegMap {
        self.entries.spec_state()
    }

    /// The entries a reader sees.
    pub open spec fn spec_entries(self) -> Seq<(Seq<u8>, Seq<u8>)> {
        self.entries.spec_entries()
    }

    /// The map's version: how many entry operations this replica has
    /// incorporated.
    pub open spec fn spec_version(self) -> int {
        self.entries.spec_ops().len() as int
    }

    /// The store's internal bookkeeping holds.
    pub open spec fn wf(self) -> bool {
        self.entries.wf()
    }

    /// No owner has been appended yet and the map still exists.
    pub open spec fn is_created(self) -> bool {
        self.owners_seq().len() == 0 && !self.removed
    }

    /// `requester` is named by the current (latest) ownership record.
    pub open spec fn spec_is_owner(self, requester: PublicKey) -> bool {
        self.owners_seq().len() > 0 && self.owners_seq().last().public_key == requester
    }

    /// The access decision against the live tail of the histories:
    /// nothing is allowed on a removed map; public maps always grant
    /// `Read` and never grant `Delete`; the current owner may do
    /// everything else — ownership exempts a requester from the
    /// permission matrix, so an owner needs no self-granted entry to
    /// read, write or manage permissions; otherwise the latest
    /// permission snapshot decides, and a map without one denies.
    pub open spec fn spec_authorize(self, requester: PublicKey, action: Action) -> bool {
        if self.removed {
            false
        } else if self.address.spec_kind() == Kind::Public && action == Action::Read {
            true
        } else if self.address.spec_kind() == Kind::Public && action == Action::Delete {
            false
        } else if self.spec_is_owner(requester) {
            true
        } else if self.perms_seq().len() > 0 {
            self.perms_seq().last().spec_allows(requester, action)
        } else {
            false
        }
    }

    /// Constructs a new, empty map copy for `actor` at `address`.
    pub fn new(actor: PublicKey, address: Address) -> (r: Self)
        ensures
            r.wf(),
            r.address == address,
            r.actor == actor,
            r.perms_seq() == Seq::<Permissions>::empty(),
            r.owners_seq() == Seq::<Owner>::empty(),
            r.entries.spec_ops() == Seq::<EntryOpView>::empty(),
            forall|a: PublicKey| perm_actor_counter(r.permissions, a) == 0,
            forall|a: PublicKey| owner_actor_counter(r.owners, a) == 0,
            !r.removed,
    {
        MapCrdt {
            address,
            actor,
            entries: EntryStore::new(),
            permissions: perm_list_new(),
            owners: owner_list_new(),
            removed: false,
        }
    }

    /// Returns the address.
    pub fn address(&self) -> (r: &Address)
        ensures
            *r == self.address,
    {
        &self.address
    }

    /// Returns the map's current version.
    pub fn version(&self) -> (r: u64)
        ensures
            r == self.spec_version(),
    {
        self.entries.ops_len() as u64
    }

    /// How many permission snapshots the history holds.
    pub fn permissions_len(&self) -> (r: usize)
        ensures
            r == self.perms_seq().len(),
    {
        perm_list_len(&self.permissions)
    }

    /// How many ownership records the history holds.
    pub fn owners_len(&self) -> (r: usize)
        ensures
            r == self.owners_seq().len(),
    {
        owner_list_len(&self.owners)
    }

    /// Resolves the access decision for `requester` and `action`.
    pub fn authorize(&self, requester: PublicKey, action: Action) -> (r: Result<(), Error>)
        ensures
            r is Ok <==> self.spec_authorize(requester, action),
            r is Err ==> r == Err::<(), Error>(Error::AccessDenied),
    {
        if self.removed {
            return Err(Error::AccessDenied);
        }
        if self.address.is_public() {
            if action == Action::Read {
                return Ok(());
            }
            if action == Action::Delete {
                return Err(Error::AccessDenied);
            }
        }
        match owner_list_last(&self.owners) {
            Some(o) => {
                if o.public_key == requester {
                    return Ok(());
                }
            },
            None => {},
        }
        match perm_list_last(&self.permissions) {
            Some(p) => p.is_action_allowed(requester, action),
            None => Err(Error::AccessDenied),
        }
    }

    /// The first append to the owner history: valid only while no owner
    /// exists yet, it establishes `initial_owner` and activates the map.
    /// The appended record is pinned to the data version and permission
    /// count in effect at the append.
    pub fn store(&mut self, initial_owner: PublicKey) -> (r: Result<OwnerOp, Error>)
        requires
            old(self).wf(),
            owner_actor_counter(old(self).owners, old(self).actor) < u64::MAX,
        ensures
            final(self).wf(),
            r is Ok <==> old(self).is_created(),
            r is Err ==> *final(self) == *old(self) && r == Err::<OwnerOp, Error>(
                Error::InvalidOperation,
            ),
            r matches Ok(op) ==> {
                let record = Owner {
                    public_key: initial_owner,
                    map_version: old(self).spec_version() as u64,
                    permissions_index: old(self).perms_seq().len() as u64,
                };
                &&& final(self).owners_seq() == old(self).owners_seq().push(record)
                &&& owner_op_val(op) == record
                &&& owner_op_is_insert(op)
                &&& owner_op_wf(op)
                &&& owner_actor_counter(final(self).owners, old(self).actor)
                    == owner_actor_counter(old(self).owners, old(self).actor) + 1
                &&& forall|a: PublicKey|
                    a != old(self).actor ==> owner_actor_counter(final(self).owners, a)
                        == owner_actor_counter(old(self).owners, a)
                &&& final(self).permissions == old(self).permissions
                &&& final(self).entries == old(self).entries
                &&& final(self).address == old(self).address
                &&& final(self).actor == old(self).actor
                &&& final(self).removed == old(self).removed
            },
    {
        if self.removed {
            return Err(Error::InvalidOperation);
        }
        if owner_list_len(&self.owners) != 0 {
            return Err(Error::InvalidOperation);
        }
        let record = Owner {
            public_key: initial_owner,
            map_version: self.entries.ops_len() as u64,
            permissions_index: perm_list_len(&self.permissions) as u64,
        };
        let op = owner_list_append(&mut self.owners, record, self.actor);
        Ok(op)
    }

    /// Reads the visible value under `key`. Requires `Read` access;
    /// a missing or deleted entry reads as `NoSuchEntry`.
    pub fn get_entry(&self, requester: PublicKey, key: &Key) -> (r: Result<&Value, Error>)
        ensures
            !self.spec_authorize(requester, Action::Read) ==> r == Err::<&Value, Error>(
                Error::AccessDenied,
            ),
            self.spec_authorize(requester, Action::Read) ==> match visible(
                self.entries_state(),
                key@,
            ) {
                Some(v) => r matches Ok(rv) && rv@ == v,
                None => r == Err::<&Value, Error>(Error::NoSuchEntry),
            },
    {
        match self.authorize(requester, Action::Read) {
            Ok(()) => {},
            Err(e) => {
                return Err(e);
            },
        }
        match self.entries.get_resolved(key) {
            Some(v) => Ok(v),
            None => Err(Error::NoSuchEntry),
        }
    }

    /// Reads the last visible entry. Requires `Read` access; an empty
    /// map reads as `NoSuchEntry`.
    pub fn get_last_entry(&self, requester: PublicKey) -> (r: Result<(Key, Value), Error>)
        requires
            self.wf(),
        ensures
            !self.spec_authorize(requester, Action::Read) ==> r == Err::<(Key, Value), Error>(
                Error::AccessDenied,
            ),
            self.spec_authorize(requester, Action::Read) ==> if self.spec_entries().len() > 0 {
                r matches Ok(p) && (p.0@, p.1@) == self.spec_entries().last()
            } else {
                r == Err::<(Key, Value), Error>(Error::NoSuchEntry)
            },
    {
        match self.authorize(requester, Action::Read) {
            Ok(()) => {},
            Err(e) => {
                return Err(e);
            },
        }
        let snap = self.entries.entries_snapshot();
        let n = snap.len();
        if n == 0 {
            return Err(Error::NoSuchEntry);
        }
        let k = bytes_clone(&snap[n - 1].0);
        let v = bytes_clone(&snap[n - 1].1);
        Ok((k, v))
    }

    /// Reads the visible entries between `start` and `end`, each counted
    /// from either end of the list. Requires `Read` access; a bound that
    /// lands outside the list, or a crossed pair, reads as
    /// `NoSuchEntry`.
    pub fn get_range(
        &self,
        requester: PublicKey,
        start: SDataIndex,
        end: SDataIndex,
    ) -> (r: Result<Vec<(Key, Value)>, Error>)
        requires
            self.wf(),
        ensures
            !self.spec_authorize(requester, Action::Read) ==> r == Err::<
                Vec<(Key, Value)>,
                Error,
            >(Error::AccessDenied),
            self.spec_authorize(requester, Action::Read) ==> match (
                spec_resolve_index(start, self.spec_entries().len() as int),
                spec_resolve_index(end, self.spec_entries().len() as int),
            ) {
                (Some(s), Some(e)) => if s <= e {
                    r matches Ok(v) && pairs_view(v@) == self.spec_entries().subrange(s, e)
                } else {
                    r == Err::<Vec<(Key, Value)>, Error>(Error::NoSuchEntry)
                },
                _ => r == Err::<Vec<(Key, Value)>, Error>(Error::NoSuchEntry),
            },
    {
        match self.authorize(requester, Action::Read) {
            Ok(()) => {},
            Err(e) => {
                return Err(e);
            },
        }
        let snap = self.entries.entries_snapshot();
        let n = snap.len();
        let s: usize = match start {
            SDataIndex::FromStart(i) => {
                if i > n as u64 {
                    return Err(Error::NoSuchEntry);
                }
                i as usize
            },
            SDataIndex::FromEnd(i) => {
                if i > n as u64 {
                    return Err(Error::NoSuchEntry);
                }
                n - (i as usize)
            },
        };
        let e: usize = match end {
            SDataIndex::FromStart(i) => {
                if i > n as u64 {
                    return Err(Error::NoSuchEntry);
                }
                i as usize
            },
            SDataIndex::FromEnd(i) => {
                if i > n as u64 {
                    return Err(Error::NoSuchEntry);
                }
                n - (i as usize)
            },
        };
        if s > e {
            return Err(Error::NoSuchEntry);
        }
        let mut out: Vec<(Key, Value)> = Vec::new();
        let mut j: usize = s;
        while j < e
            invariant
                s <= j <= e,
                e <= snap@.len(),
                pairs_view(snap@) == self.spec_entries(),
                out@.len() == j - s,
                forall|t: int|
                    0 <= t < out@.len() ==> (#[trigger] out@[t].0@, out@[t].1@)
                        == self.spec_entries()[s + t],
            decreases e - j,
        {
            let k = bytes_clone(&snap[j].0);
            let v = bytes_clone(&snap[j].1);
            out.push((k, v));
            proof {
                assert(pairs_view(snap@)[j as int] == (snap@[j as int].0@, snap@[j as int].1@));
            }
            j = j + 1;
        }
        proof {
            assert(pairs_view(out@) =~= self.spec_entries().subrange(s as int, e as int));
        }
        Ok(out)
    }

    /// Reads the latest permission snapshot. Requires `Read` access; a
    /// map with no snapshot appended yet reads as `NoSuchEntry`.
    pub fn get_permissions(&self, requester: PublicKey) -> (r: Result<&Permissions, Error>)
        ensures
            !self.spec_authorize(requester, Action::Read) ==> r == Err::<&Permissions, Error>(
                Error::AccessDenied,
            ),
            self.spec_authorize(requester, Action::Read) ==> if self.perms_seq().len() > 0 {
                r matches Ok(p) && *p == self.perms_seq().last()
            } else {
                r == Err::<&Permissions, Error>(Error::NoSuchEntry)
            },
    {
        match self.authorize(requester, Action::Read) {
            Ok(()) => {},
            Err(e) => {
                return Err(e);
            },
        }
        match perm_list_last(&self.permissions) {
            Some(p) => Ok(p),
            None => Err(Error::NoSuchEntry),
        }
    }

    /// Reads what the latest permission snapshot records for `user`.
    /// Requires `Read` access; absent where no snapshot was appended or
    /// the snapshot holds nothing for the user.
    pub fn get_user_permissions(&self, requester: PublicKey, user: User) -> (r: Result<
        UserPermissions,
        Error,
    >)
        ensures
            !self.spec_authorize(requester, Action::Read) ==> r == Err::<UserPermissions, Error>(
                Error::AccessDenied,
            ),
            self.spec_authorize(requester, Action::Read) ==> if self.perms_seq().len() > 0 {
                match self.perms_seq().last().spec_user_permissions(user) {
                    Some(p) => r == Ok::<UserPermissions, Error>(p),
                    None => r == Err::<UserPermissions, Error>(Error::NoSuchEntry),
                }
            } else {
                r == Err::<UserPermissions, Error>(Error::NoSuchEntry)
            },
    {
        match self.authorize(requester, Action::Read) {
            Ok(()) => {},
            Err(e) => {
                return Err(e);
            },
        }
        match perm_list_last(&self.permissions) {
            Some(p) => match p.user_permissions(user) {
                Some(up) => Ok(up),
                None => Err(Error::NoSuchEntry),
            },
            None => Err(Error::NoSuchEntry),
        }
    }

    /// Reads the current ownership record. Requires `Read` access; a map
    /// not yet stored reads as `NoSuchEntry`.
    pub fn get_owner(&self, requester: PublicKey) -> (r: Result<Owner, Error>)
        ensures
            !self.spec_authorize(requester, Action::Read) ==> r == Err::<Owner, Error>(
                Error::AccessDenied,
            ),
            self.spec_authorize(requester, Action::Read) ==> if self.owners_seq().len() > 0 {
                r == Ok::<Owner, Error>(self.owners_seq().last())
            } else {
                r == Err::<Owner, Error>(Error::NoSuchEntry)
            },
    {
        match self.authorize(requester, Action::Read) {
            Ok(()) => {},
            Err(e) => {
                return Err(e);
            },
        }
        match owner_list_last(&self.owners) {
            Some(o) => Ok(*o),
            None => Err(Error::NoSuchEntry),
        }
    }
}


impl MapCrdt {
    /// Stores `value` under a key not yet visible. Requires `Insert`
    /// access; a visible entry under `key` fails with `EntryExists`.
    /// On success the returned operation is the one this replica
    /// already merged, for other replicas to merge too.
    pub fn insert(&mut self, requester: PublicKey, key: Key, value: Value) -> (r: Result<
        EntryOp,
        Error,
    >)
        requires
            old(self).wf(),
            old(self).spec_version() < u64::MAX,
        ensures
            final(self).wf(),
            r is Err ==> *final(self) == *old(self),
            !old(self).spec_authorize(requester, Action::Insert) ==> r == Err::<EntryOp, Error>(
                Error::AccessDenied,
            ),
            old(self).spec_authorize(requester, Action::Insert) && visible(
                old(self).entries_state(),
                key@,
            ) is Some ==> r == Err::<EntryOp, Error>(Error::EntryExists),
            r is Ok <==> old(self).spec_authorize(requester, Action::Insert) && visible(
                old(self).entries_state(),
                key@,
            ) is None,
            r matches Ok(op) ==> {
                let v = EntryOpView {
                    key: key@,
                    actor: old(self).actor,
                    counter: (old(self).spec_version() + 1) as u64,
                    value: Some(value@),
                };
                &&& op.view_of() == v
                &&& final(self).entries_state() == apply_reg(old(self).entries_state(), v)
                &&& final(self).entries.spec_ops() == old(self).entries.spec_ops().push(v)
                &&& final(self).perms_seq() == old(self).perms_seq()
                &&& final(self).owners_seq() == old(self).owners_seq()
                &&& final(self).address == old(self).address
                &&& final(self).actor == old(self).actor
                &&& final(self).removed == old(self).removed
            },
    {
        match self.authorize(requester, Action::Insert) {
            Ok(()) => {},
            Err(e) => {
                return Err(e);
            },
        }
        match self.entries.get_resolved(&key) {
            Some(_) => {
                return Err(Error::EntryExists);
            },
            None => {},
        }
        let counter = self.entries.ops_len() as u64 + 1;
        let kb = bytes_clone(&key);
        let vb = bytes_clone(&value);
        let op = EntryOp { key, actor: self.actor, counter, value: Some(value) };
        self.entries.apply_op(op);
        Ok(EntryOp { key: kb, actor: self.actor, counter, value: Some(vb) })
    }

    /// Overwrites the visible value under `key`. Requires `Update`
    /// access; a key with nothing visible fails with `NoSuchEntry`.
    /// On success the returned operation is the one this replica
    /// already merged, for other replicas to merge too.
    pub fn update(&mut self, requester: PublicKey, key: Key, value: Value) -> (r: Result<
        EntryOp,
        Error,
    >)
        requires
            old(self).wf(),
            old(self).spec_version() < u64::MAX,
        ensures
            final(self).wf(),
            r is Err ==> *final(self) == *old(self),
            !old(self).spec_authorize(requester, Action::Update) ==> r == Err::<EntryOp, Error>(
                Error::AccessDenied,
            ),
            old(self).spec_authorize(requester, Action::Update) && visible(
                old(self).entries_state(),
                key@,
            ) is None ==> r == Err::<EntryOp, Error>(Error::NoSuchEntry),
            r is Ok <==> old(self).spec_authorize(requester, Action::Update) && visible(
                old(self).entries_state(),
                key@,
            ) is Some,
            r matches Ok(op) ==> {
                let v = EntryOpView {
                    key: key@,
                    actor: old(self).actor,
                    counter: (old(self).spec_version() + 1) as u64,
                    value: Some(value@),
                };
                &&& op.view_of() == v
                &&& final(self).entries_state() == apply_reg(old(self).entries_state(), v)
                &&& final(self).entries.spec_ops() == old(self).entries.spec_ops().push(v)
                &&& final(self).perms_seq() == old(self).perms_seq()
                &&& final(self).owners_seq() == old(self).owners_seq()
                &&& final(self).address == old(self).address
                &&& final(self).actor == old(self).actor
                &&& final(self).removed == old(self).removed
            },
    {
        match self.authorize(requester, Action::Update) {
            Ok(()) => {},
            Err(e) => {
                return Err(e);
            },
        }
        match self.entries.get_resolved(&key) {
            Some(_) => {},
            None => {
                return Err(Error::NoSuchEntry);
            },
        }
        let counter = self.entries.ops_len() as u64 + 1;
        let kb = bytes_clone(&key);
        let vb = bytes_clone(&value);
        let op = EntryOp { key, actor: self.actor, counter, value: Some(value) };
        self.entries.apply_op(op);
        Ok(EntryOp { key: kb, actor: self.actor, counter, value: Some(vb) })
    }

    /// Deletes the visible value under `key` by writing a removal.
    /// Requires `Delete` access, which a public map never grants; a key
    /// with nothing visible fails with `NoSuchEntry`. On success the
    /// returned operation is the one this replica already merged.
    pub fn delete_entry(&mut self, requester: PublicKey, key: Key) -> (r: Result<EntryOp, Error>)
        requires
            old(self).wf(),
            old(self).spec_version() < u64::MAX,
        ensures
            final(self).wf(),
            r is Err ==> *final(self) == *old(self),
            !old(self).spec_authorize(requester, Action::Delete) ==> r == Err::<EntryOp, Error>(
                Error::AccessDenied,
            ),
            old(self).spec_authorize(requester, Action::Delete) && visible(
                old(self).entries_state(),
                key@,
            ) is None ==> r == Err::<EntryOp, Error>(Error::NoSuchEntry),
            r is Ok <==> old(self).spec_authorize(requester, Action::Delete) && visible(
                old(self).entries_state(),
                key@,
            ) is Some,
            r matches Ok(op) ==> {
                let v = EntryOpView {
                    key: key@,
                    actor: old(self).actor,
                    counter: (old(self).spec_version() + 1) as u64,
                    value: None,
                };
                &&& op.view_of() == v
                &&& final(self).entries_state() == apply_reg(old(self).entries_state(), v)
                &&& final(self).entries.spec_ops() == old(self).entries.spec_ops().push(v)
                &&& final(self).perms_seq() == old(self).perms_seq()
                &&& final(self).owners_seq() == old(self).owners_seq()
                &&& final(self).address == old(self).address
                &&& final(self).actor == old(self).actor
                &&& final(self).removed == old(self).removed
            },
    {
        match self.authorize(requester, Action::Delete) {
            Ok(()) => {},
            Err(e) => {
                return Err(e);
            },
        }
        match self.entries.get_resolved(&key) {
            Some(_) => {},
            None => {
                return Err(Error::NoSuchEntry);
            },
        }
        let counter = self.entries.ops_len() as u64 + 1;
        let kb = bytes_clone(&key);
        let op = EntryOp { key, actor: self.actor, counter, value: None };
        self.entries.apply_op(op);
        Ok(EntryOp { key: kb, actor: self.actor, counter, value: None })
    }
}


impl MapCrdt {
    /// Appends a complete public permission matrix to the permission
    /// history. Requires a public map (else `InvalidOperation`) and
    /// `ManagePermissions` access. The appended snapshot is pinned to
    /// the data version and owner count in effect at the append.
    pub fn mutate_pub_permissions(
        &mut self,
        requester: PublicKey,
        permissions: Vec<(User, PubUserPermissions)>,
    ) -> (r: Result<PermissionsOp, Error>)
        requires
            old(self).wf(),
            perm_actor_counter(old(self).permissions, old(self).actor) < u64::MAX,
        ensures
            final(self).wf(),
            r is Err ==> *final(self) == *old(self),
            old(self).address.spec_kind() != Kind::Public ==> r == Err::<PermissionsOp, Error>(
                Error::InvalidOperation,
            ),
            old(self).address.spec_kind() == Kind::Public && !old(self).spec_authorize(
                requester,
                Action::ManagePermissions,
            ) ==> r == Err::<PermissionsOp, Error>(Error::AccessDenied),
            r is Ok <==> old(self).address.spec_kind() == Kind::Public && old(
                self,
            ).spec_authorize(requester, Action::ManagePermissions),
            r matches Ok(op) ==> {
                let snap = Permissions::Pub(
                    PubPermissions {
                        permissions,
                        map_version: old(self).spec_version() as u64,
                        owners_index: old(self).owners_seq().len() as u64,
                    },
                );
                &&& final(self).perms_seq() == old(self).perms_seq().push(snap)
                &&& perm_op_val(op) == snap
                &&& perm_op_is_insert(op)
                &&& perm_op_wf(op)
                &&& perm_actor_counter(final(self).permissions, old(self).actor)
                    == perm_actor_counter(old(self).permissions, old(self).actor) + 1
                &&& forall|a: PublicKey|
                    a != old(self).actor ==> perm_actor_counter(final(self).permissions, a)
                        == perm_actor_counter(old(self).permissions, a)
                &&& final(self).owners == old(self).owners
                &&& final(self).entries == old(self).entries
                &&& final(self).address == old(self).address
                &&& final(self).actor == old(self).actor
                &&& final(self).removed == old(self).removed
            },
    {
        if !self.address.is_public() {
            return Err(Error::InvalidOperation);
        }
        match self.authorize(requester, Action::ManagePermissions) {
            Ok(()) => {},
            Err(e) => {
                return Err(e);
            },
        }
        let snap = Permissions::Pub(
            PubPermissions {
                permissions,
                map_version: self.entries.ops_len() as u64,
                owners_index: owner_list_len(&self.owners) as u64,
            },
        );
        let op = perm_list_append(&mut self.permissions, snap, self.actor);
        Ok(op)
    }

    /// Appends a complete private permission matrix to the permission
    /// history. Requires a private map (else `InvalidOperation`) and
    /// `ManagePermissions` access. The appended snapshot is pinned to
    /// the data version and owner count in effect at the append.
    pub fn mutate_priv_permissions(
        &mut self,
        requester: PublicKey,
        permissions: Vec<(PublicKey, PrivUserPermissions)>,
    ) -> (r: Result<PermissionsOp, Error>)
        requires
            old(self).wf(),
            perm_actor_counter(old(self).permissions, old(self).actor) < u64::MAX,
        ensures
            final(self).wf(),
            r is Err ==> *final(self) == *old(self),
            old(self).address.spec_kind() != Kind::Private ==> r == Err::<PermissionsOp, Error>(
                Error::InvalidOperation,
            ),
            old(self).address.spec_kind() == Kind::Private && !old(self).spec_authorize(
                requester,
                Action::ManagePermissions,
            ) ==> r == Err::<PermissionsOp, Error>(Error::AccessDenied),
            r is Ok <==> old(self).address.spec_kind() == Kind::Private && old(
                self,
            ).spec_authorize(requester, Action::ManagePermissions),
            r matches Ok(op) ==> {
                let snap = Permissions::Priv(
                    PrivPermissions {
                        permissions,
                        map_version: old(self).spec_version() as u64,
                        owners_index: old(self).owners_seq().len() as u64,
                    },
                );
                &&& final(self).perms_seq() == old(self).perms_seq().push(snap)
                &&& perm_op_val(op) == snap
                &&& perm_op_is_insert(op)
                &&& perm_op_wf(op)
                &&& perm_actor_counter(final(self).permissions, old(self).actor)
                    == perm_actor_counter(old(self).permissions, old(self).actor) + 1
                &&& forall|a: PublicKey|
                    a != old(self).actor ==> perm_actor_counter(final(self).permissions, a)
                        == perm_actor_counter(old(self).permissions, a)
                &&& final(self).owners == old(self).owners
                &&& final(self).entries == old(self).entries
                &&& final(self).address == old(self).address
                &&& final(self).actor == old(self).actor
                &&& final(self).removed == old(self).removed
            },
    {
        if !self.address.is_private() {
            return Err(Error::InvalidOperation);
        }
        match self.authorize(requester, Action::ManagePermissions) {
            Ok(()) => {},
            Err(e) => {
                return Err(e);
            },
        }
        let snap = Permissions::Priv(
            PrivPermissions {
                permissions,
                map_version: self.entries.ops_len() as u64,
                owners_index: owner_list_len(&self.owners) as u64,
            },
        );
        let op = perm_list_append(&mut self.permissions, snap, self.actor);
        Ok(op)
    }

    /// Appends a new ownership record naming `new_owner`. Authorized
    /// exclusively by the current ownership record — the permission
    /// matrix is never consulted — so a non-owner holding
    /// `ManagePermissions` can never reassign ownership. The appended
    /// record is pinned to the data version and permission count in
    /// effect at the append.
    pub fn mutate_owner(&mut self, requester: PublicKey, new_owner: PublicKey) -> (r: Result<
        OwnerOp,
        Error,
    >)
        requires
            old(self).wf(),
            owner_actor_counter(old(self).owners, old(self).actor) < u64::MAX,
        ensures
            final(self).wf(),
            r is Err ==> *final(self) == *old(self),
            old(self).removed ==> r == Err::<OwnerOp, Error>(Error::InvalidOperation),
            !old(self).removed && !old(self).spec_is_owner(requester) ==> r == Err::<
                OwnerOp,
                Error,
            >(Error::AccessDenied),
            r is Ok <==> !old(self).removed && old(self).spec_is_owner(requester),
            r matches Ok(op) ==> {
                let record = Owner {
                    public_key: new_owner,
                    map_version: old(self).spec_version() as u64,
                    permissions_index: old(self).perms_seq().len() as u64,
                };
                &&& final(self).owners_seq() == old(self).owners_seq().push(record)
                &&& owner_op_val(op) == record
                &&& owner_op_is_insert(op)
                &&& owner_op_wf(op)
                &&& owner_actor_counter(final(self).owners, old(self).actor)
                    == owner_actor_counter(old(self).owners, old(self).actor) + 1
                &&& forall|a: PublicKey|
                    a != old(self).actor ==> owner_actor_counter(final(self).owners, a)
                        == owner_actor_counter(old(self).owners, a)
                &&& final(self).permissions == old(self).permissions
                &&& final(self).entries == old(self).entries
                &&& final(self).address == old(self).address
                &&& final(self).actor == old(self).actor
                &&& final(self).removed == old(self).removed
            },
    {
        if self.removed {
            return Err(Error::InvalidOperation);
        }
        let is_owner = match owner_list_last(&self.owners) {
            Some(o) => o.public_key == requester,
            None => false,
        };
        if !is_owner {
            return Err(Error::AccessDenied);
        }
        let record = Owner {
            public_key: new_owner,
            map_version: self.entries.ops_len() as u64,
            permissions_index: perm_list_len(&self.permissions) as u64,
        };
        let op = owner_list_append(&mut self.owners, record, self.actor);
        Ok(op)
    }

    /// Removes a private map whole, terminally. Public maps always fail
    /// this call with `InvalidOperation`; only the current owner may
    /// remove a private one.
    pub fn delete_map(&mut self, requester: PublicKey) -> (r: Result<(), Error>)
        requires
            old(self).wf(),
        ensures
            final(self).wf(),
            r is Err ==> *final(self) == *old(self),
            old(self).address.spec_kind() == Kind::Public || old(self).removed ==> r == Err::<
                (),
                Error,
            >(Error::InvalidOperation),
            old(self).address.spec_kind() == Kind::Private && !old(self).removed && !old(
                self,
            ).spec_is_owner(requester) ==> r == Err::<(), Error>(Error::AccessDenied),
            r is Ok <==> old(self).address.spec_kind() == Kind::Private && !old(self).removed
                && old(self).spec_is_owner(requester),
            r is Ok ==> {
                &&& final(self).removed
                &&& final(self).perms_seq() == old(self).perms_seq()
                &&& final(self).owners_seq() == old(self).owners_seq()
                &&& final(self).entries == old(self).entries
                &&& final(self).address == old(self).address
                &&& final(self).actor == old(self).actor
            },
    {
        if self.address.is_public() || self.removed {
            return Err(Error::InvalidOperation);
        }
        let is_owner = match owner_list_last(&self.owners) {
            Some(o) => o.public_key == requester,
            None => false,
        };
        if !is_owner {
            return Err(Error::AccessDenied);
        }
        self.removed = true;
        Ok(())
    }

    /// Merges a remote entry operation: the registers step by exactly
    /// one merge, so re-delivering an operation already merged leaves
    /// them unchanged, and delivery order does not matter.
    pub fn apply_data_op(&mut self, op: EntryOp)
        requires
            old(self).wf(),
        ensures
            final(self).wf(),
            final(self).entries_state() == apply_reg(old(self).entries_state(), op.view_of()),
            final(self).entries.spec_ops() == old(self).entries.spec_ops().push(op.view_of()),
            final(self).perms_seq() == old(self).perms_seq(),
            final(self).owners_seq() == old(self).owners_seq(),
            final(self).address == old(self).address,
            final(self).actor == old(self).actor,
            final(self).removed == old(self).removed,
    {
        self.entries.apply_op(op);
    }

    /// Merges a remote permission-history operation: an insertion not
    /// yet covered by the local clock lands its snapshot in the history
    /// at the position its identifier orders to; one already covered
    /// leaves the history unchanged; and after the merge the clock
    /// covers it, so a second delivery is a no-op. Only well-formed
    /// operations — ones built by an append, as `mutate_pub_permissions`
    /// and `mutate_priv_permissions` promise of theirs — may be merged:
    /// a malformed wire value would panic inside the dependency, and
    /// the unverified caller owns that check.
    pub fn apply_permissions_op(&mut self, op: &PermissionsOp)
        requires
            perm_op_wf(*op),
        ensures
            perm_seen(old(self).permissions, *op) ==> final(self).perms_seq() == old(
                self,
            ).perms_seq(),
            perm_seen(final(self).permissions, *op),
            !perm_seen(old(self).permissions, *op) && perm_op_is_insert(*op) ==> exists|i: int|
                0 <= i <= old(self).perms_seq().len() && final(self).perms_seq() == old(
                    self,
                ).perms_seq().insert(i, perm_op_val(*op)),
            final(self).owners_seq() == old(self).owners_seq(),
            final(self).entries == old(self).entries,
            final(self).address == old(self).address,
            final(self).actor == old(self).actor,
            final(self).removed == old(self).removed,
    {
        let ghost before = *self;
        perm_list_apply(&mut self.permissions, op);
        proof {
            if !perm_seen(before.permissions, *op) && perm_op_is_insert(*op) {
                let i = choose|i: int|
                    0 <= i <= perm_hist(before.permissions).len() && perm_hist(self.permissions)
                        == perm_hist(before.permissions).insert(i, perm_op_val(*op));
                assert(self.perms_seq() == before.perms_seq().insert(i, perm_op_val(*op)));
            }
        }
    }

    /// Merges a remote owner-history operation: an insertion not yet
    /// covered by the local clock lands its record in the history at
    /// the position its identifier orders to; one already covered
    /// leaves the history unchanged; and after the merge the clock
    /// covers it, so a second delivery is a no-op. Only well-formed
    /// operations — ones built by an append, as `store` and
    /// `mutate_owner` promise of theirs — may be merged: a malformed
    /// wire value would panic inside the dependency, and the unverified
    /// caller owns that check.
    pub fn apply_owner_op(&mut self, op: &OwnerOp)
        requires
            owner_op_wf(*op),
        ensures
            owner_seen(old(self).owners, *op) ==> final(self).owners_seq() == old(
                self,
            ).owners_seq(),
            owner_seen(final(self).owners, *op),
            !owner_seen(old(self).owners, *op) && owner_op_is_insert(*op) ==> exists|i: int|
                0 <= i <= old(self).owners_seq().len() && final(self).owners_seq() == old(
                    self,
                ).owners_seq().insert(i, owner_op_val(*op)),
            final(self).perms_seq() == old(self).perms_seq(),
            final(self).entries == old(self).entries,
            final(self).address == old(self).address,
            final(self).actor == old(self).actor,
            final(self).removed == old(self).removed,
    {
        let ghost before = *self;
        owner_list_apply(&mut self.owners, op);
        proof {
            if !owner_seen(before.owners, *op) && owner_op_is_insert(*op) {
                let i = choose|i: int|
                    0 <= i <= owner_hist(before.owners).len() && owner_hist(self.owners)
                        == owner_hist(before.owners).insert(i, owner_op_val(*op));
                assert(self.owners_seq() == before.owners_seq().insert(i, owner_op_val(*op)));
            }
        }
    }
}

/// Every snapshot in the sequence is pinned no later than data version
/// `version` and owner count `owners`.
pub open spec fn perms_pinned_within(s: Seq<Permissions>, version: int, owners: int) -> bool {
    forall|i: int|
        0 <= i < s.len() ==> (#[trigger] s[i]).spec_map_version() <= version
            && s[i].spec_owners_index() <= owners
}

/// Along the sequence the recorded pins never decrease.
pub open spec fn perms_pins_nondecreasing(s: Seq<Permissions>) -> bool {
    forall|i: int, j: int|
        0 <= i <= j < s.len() ==> (#[trigger] s[i]).spec_map_version() <= (
        #[trigger] s[j]).spec_map_version() && s[i].spec_owners_index()
            <= s[j].spec_owners_index()
}

/// Every record in the sequence is pinned no later than data version
/// `version` and permission count `perms`.
pub open spec fn owners_pinned_within(s: Seq<Owner>, version: int, perms: int) -> bool {
    forall|i: int|
        0 <= i < s.len() ==> (#[trigger] s[i]).map_version <= version
            && s[i].permissions_index <= perms
}

/// Along the sequence the recorded pins never decrease.
pub open spec fn owners_pins_nondecreasing(s: Seq<Owner>) -> bool {
    forall|i: int, j: int|
        0 <= i <= j < s.len() ==> (#[trigger] s[i]).map_version <= (#[trigger] s[j]).map_version
            && s[i].permissions_index <= s[j].permissions_index
}

/// Monotonic pinning along a locally grown permission history: where
/// every pin recorded so far lies within the lengths the map had
/// observed, and a new snapshot is appended pinned to the current — no
/// smaller — lengths (exactly what `mutate_pub_permissions` and
/// `mutate_priv_permissions` ensure), each pin stays no later than the
/// lengths at its append and the pins never decrease along the
/// sequence. Histories that merge concurrent remote appends are outside
/// this law: two replicas can pin snapshots to incomparable lengths.
pub proof fn lemma_permissions_monotonic_pinning(
    s: Seq<Permissions>,
    snap: Permissions,
    version: int,
    owners: int,
    version2: int,
    owners2: int,
)
    requires
        perms_pinned_within(s, version, owners),
        perms_pins_nondecreasing(s),
        version <= version2,
        owners <= owners2,
        snap.spec_map_version() == version2,
        snap.spec_owners_index() == owners2,
    ensures
        perms_pinned_within(s.push(snap), version2, owners2),
        perms_pins_nondecreasing(s.push(snap)),
{
    assert forall|i: int, j: int| 0 <= i <= j < s.push(snap).len() implies (
    #[trigger] s.push(snap)[i]).spec_map_version() <= (
    #[trigger] s.push(snap)[j]).spec_map_version() && s.push(snap)[i].spec_owners_index()
        <= s.push(snap)[j].spec_owners_index() by {
        if j < s.len() {
            assert(s.push(snap)[i] == s[i]);
            assert(s.push(snap)[j] == s[j]);
        } else {
            assert(s.push(snap)[j] == snap);
            if i < s.len() {
                assert(s.push(snap)[i] == s[i]);
            }
        }
    }
}

/// Monotonic pinning along a locally grown owner history: as for the
/// permission history, with the premises `store` and `mutate_owner`
/// ensure of each appended record.
pub proof fn lemma_owners_monotonic_pinning(
    s: Seq<Owner>,
    record: Owner,
    version: int,
    perms: int,
    version2: int,
    perms2: int,
)
    requires
        owners_pinned_within(s, version, perms),
        owners_pins_nondecreasing(s),
        version <= version2,
        perms <= perms2,
        record.map_version == version2,
        record.permissions_index == perms2,
    ensures
        owners_pinned_within(s.push(record), version2, perms2),
        owners_pins_nondecreasing(s.push(record)),
{
    assert forall|i: int, j: int| 0 <= i <= j < s.push(record).len() implies (
    #[trigger] s.push(record)[i]).map_version <= (#[trigger] s.push(record)[j]).map_version
        && s.push(record)[i].permissions_index <= s.push(record)[j].permissions_index by {
        if j < s.len() {
            assert(s.push(record)[i] == s[i]);
            assert(s.push(record)[j] == s[j]);
        } else {
            assert(s.push(record)[j] == record);
            if i < s.len() {
                assert(s.push(record)[i] == s[i]);
            }
        }
    }
}

/// Convergence at the map level: two replica copies whose entry logs
/// carry the same set of operations — however each arrived at it, in
/// whatever order and with whatever duplication — hold identical entry
/// registers, and so show every reader the same values.
pub proof fn lemma_map_entries_convergence(a: MapCrdt, b: MapCrdt)
    requires
        a.entries.spec_ops().to_set() == b.entries.spec_ops().to_set(),
        crate::entries::ops_coherent(a.entries.spec_ops().to_set()),
    ensures
        a.entries_state() == b.entries_state(),
{
    crate::entries::lemma_apply_all_converged(a.entries.spec_ops());
    crate::entries::lemma_apply_all_converged(b.entries.spec_ops());
}

/// Object storing a map variant.
pub enum Data {
    /// Public map.
    Public(MapCrdt),
    /// Private map.
    Private(MapCrdt),
}

impl Data {
    /// The map copy this object stores.
    pub open spec fn spec_map(self) -> MapCrdt {
        match self {
            Data::Public(m) => m,
            Data::Private(m) => m,
        }
    }

    /// Returns the stored map's name.
    pub fn name(&self) -> (r: &XorName)
        ensures
            *r == self.spec_map().address.spec_name(),
    {
        match self {
            Data::Public(m) => m.address().name(),
            Data::Private(m) => m.address().name(),
        }
    }

    /// Returns the stored map's kind.
    pub fn kind(&self) -> (r: Kind)
        ensures
            r == self.spec_map().address.spec_kind(),
    {
        match self {
            Data::Public(m) => m.address().kind(),
            Data::Private(m) => m.address().kind(),
        }
    }
}

} // verus!
