//! Permission sets: per-user grants for public and private maps, the
//! snapshots appended to a map's permission history, and the access
//! decision each snapshot induces.

use vstd::prelude::*;

use crate::types::{Action, Error, PublicKey, User};

verus! {

/// Set of public permissions for a user.
///
/// `Some(true)` grants, `Some(false)` explicitly denies (even if `Anyone`
/// holds the grant), and `None` defers to the entry for `Anyone`.
#[derive(Clone, Copy, PartialEq, Eq, Structural, Hash, Debug)]
pub struct PubUserPermissions {
    /// Whether the user can read entries. Overridden: public data may
    /// always be read, so this bit never decides.
    pub read: Option<bool>,
    /// Whether the user can insert new entries.
    pub insert: Option<bool>,
    /// Whether the user can update existing entries.
    pub update: Option<bool>,
    /// Whether the user can manage permissions for other users.
    pub manage_permissions: Option<bool>,
}

impl PubUserPermissions {
    /// What `is_allowed` returns: reads always succeed and deletes always
    /// fail on public data; the remaining actions follow the stored bits.
    pub open spec fn spec_is_allowed(self, action: Action) -> Option<bool> {
        match action {
            Action::Read => Some(true),
            Action::Insert => self.insert,
            Action::Update => self.update,
            Action::Delete => Some(false),
            Action::ManagePermissions => self.manage_permissions,
        }
    }

    /// Constructs a new public permission set.
    pub fn new(
        read: Option<bool>,
        insert: Option<bool>,
        update: Option<bool>,
        manage_permissions: Option<bool>,
    ) -> (r: Self)
        ensures
            r == (PubUserPermissions { read, insert, update, manage_permissions }),
    {
        Self { read, insert, update, manage_permissions }
    }

    /// Sets permissions.
    pub fn set_perms(
        &mut self,
        read: Option<bool>,
        insert: Option<bool>,
        update: Option<bool>,
        manage_permissions: Option<bool>,
    )
        ensures
            *final(self) == (PubUserPermissions { read, insert, update, manage_permissions }),
    {
        self.read = read;
        self.insert = insert;
        self.update = update;
        self.manage_permissions = manage_permissions;
    }

    /// Returns `Some(true)` if `action` is allowed and `Some(false)` if it
    /// is not permitted. `None` means that the `Anyone` entry decides.
    /// It is public data, so reading is always allowed and deleting never.
    pub fn is_allowed(self, action: Action) -> (r: Option<bool>)
        ensures
            r == self.spec_is_allowed(action),
    {
        match action {
            Action::Read => Some(true),
            Action::Insert => self.insert,
            Action::Update => self.update,
            Action::Delete => Some(false),
            Action::ManagePermissions => self.manage_permissions,
        }
    }
}

/// Set of private permissions for a user. Absence of an entry for a
/// requester denies every action; these bits decide for present entries.
#[derive(Clone, Copy, PartialEq, Eq, Structural, Hash, Debug)]
pub struct PrivUserPermissions {
    /// Whether the user can read entries.
    pub read: bool,
    /// Whether the user can insert new entries.
    pub insert: bool,
    /// Whether the user can update existing entries.
    pub update: bool,
    /// Whether the user can delete existing entries.
    pub delete: bool,
    /// Whether the user can manage permissions for other users.
    pub manage_permissions: bool,
}

impl PrivUserPermissions {
    /// What `is_allowed` returns: the stored bit for the action.
    pub open spec fn spec_is_allowed(self, action: Action) -> bool {
        match action {
            Action::Read => self.read,
            Action::Insert => self.insert,
            Action::Update => self.update,
            Action::Delete => self.delete,
            Action::ManagePermissions => self.manage_permissions,
        }
    }

    /// Constructs a new private permission set.
    pub fn new(
        read: bool,
        insert: bool,
        update: bool,
        delete: bool,
        manage_permissions: bool,
    ) -> (r: Self)
        ensures
            r == (PrivUserPermissions { read, insert, update, delete, manage_permissions }),
    {
        Self { read, insert, update, delete, manage_permissions }
    }

    /// Sets permissions.
    pub fn set_perms(
        &mut self,
        read: bool,
        insert: bool,
        update: bool,
        delete: bool,
        manage_permissions: bool,
    )
        ensures
            *final(self) == (PrivUserPermissions { read, insert, update, delete, manage_permissions }),
    {
        self.read = read;
        self.insert = insert;
        self.update = update;
        self.delete = delete;
        self.manage_permissions = manage_permissions;
    }

    /// Returns `true` if `action` is allowed.
    pub fn is_allowed(self, action: Action) -> (r: bool)
        ensures
            r == self.spec_is_allowed(action),
    {
        match action {
            Action::Read => self.read,
            Action::Insert => self.insert,
            Action::Update => self.update,
            Action::Delete => self.delete,
            Action::ManagePermissions => self.manage_permissions,
        }
    }
}

/// The first permission set recorded for `user`, if any.
pub open spec fn spec_lookup_pub(
    s: Seq<(User, PubUserPermissions)>,
    user: User,
) -> Option<PubUserPermissions>
    decreases s.len(),
{
    if s.len() == 0 {
        None
    } else if s[0].0 == user {
        Some(s[0].1)
    } else {
        spec_lookup_pub(s.drop_first(), user)
    }
}

/// The first permission set recorded for `key`, if any.
pub open spec fn spec_lookup_priv(
    s: Seq<(PublicKey, PrivUserPermissions)>,
    key: PublicKey,
) -> Option<PrivUserPermissions>
    decreases s.len(),
{
    if s.len() == 0 {
        None
    } else if s[0].0 == key {
        Some(s[0].1)
    } else {
        spec_lookup_priv(s.drop_first(), key)
    }
}

/// Published permissions: one snapshot of the public permission matrix,
/// pinned to the data version and owners index in effect when appended.
#[derive(Clone, PartialEq, Eq, Hash, Debug)]
pub struct PubPermissions {
    /// Each user together with their public permission set. Where a
    /// user is listed twice, the first entry governs every lookup.
    pub permissions: Vec<(User, PubUserPermissions)>,
    /// The current index of the data when this permission change happened.
    pub map_version: u64,
    /// The current index of the owners when this permission change happened.
    pub owners_index: u64,
}

impl PubPermissions {
    /// The decision this snapshot induces: the requester's own entry is
    /// consulted first; where it is absent or defers, the `Anyone` entry
    /// decides; where both defer, the action is denied. Reading public
    /// data always succeeds and deleting it never does, whatever is
    /// stored.
    pub open spec fn spec_allows(self, requester: PublicKey, action: Action) -> bool {
        match action {
            Action::Read => true,
            Action::Delete => false,
            _ => match self.spec_allowed_by_user(User::Key(requester), action) {
                Some(b) => b,
                None => match self.spec_allowed_by_user(User::Anyone, action) {
                    Some(b) => b,
                    None => false,
                },
            },
        }
    }

    /// The three-valued decision the entry for `user` contributes.
    pub open spec fn spec_allowed_by_user(self, user: User, action: Action) -> Option<bool> {
        match spec_lookup_pub(self.permissions@, user) {
            Some(p) => p.spec_is_allowed(action),
            None => None,
        }
    }

    /// Looks up the permission set recorded for `user`.
    fn lookup(&self, user: &User) -> (r: Option<PubUserPermissions>)
        ensures
            r == spec_lookup_pub(self.permissions@, *user),
    {
        let n = self.permissions.len();
        let mut i: usize = 0;
        assert(self.permissions@.skip(0) =~= self.permissions@);
        while i < n
            invariant
                i <= n,
                n == self.permissions@.len(),
                spec_lookup_pub(self.permissions@, *user) == spec_lookup_pub(
                    self.permissions@.skip(i as int),
                    *user,
                ),
            decreases n - i,
        {
            assert(self.permissions@.skip(i as int)[0] == self.permissions@[i as int]);
            if self.permissions[i].0 == *user {
                return Some(self.permissions[i].1);
            }
            assert(self.permissions@.skip(i as int).drop_first() =~= self.permissions@.skip(
                i + 1,
            ));
            i = i + 1;
        }
        assert(self.permissions@.skip(n as int).len() == 0);
        None
    }

    /// Returns `Some(true)` if `action` is allowed for the provided user
    /// and `Some(false)` if it is not permitted. `None` means that default
    /// permissions should be applied.
    fn is_action_allowed_by_user(&self, user: &User, action: Action) -> (r: Option<bool>)
        ensures
            r == self.spec_allowed_by_user(*user, action),
    {
        match self.lookup(user) {
            Some(perms) => perms.is_allowed(action),
            None => None,
        }
    }
}

/// Private permissions: one snapshot of the private permission matrix,
/// pinned to the data version and owners index in effect when appended.
#[derive(Clone, PartialEq, Eq, Hash, Debug)]
pub struct PrivPermissions {
    /// Each user's key together with their private permission set.
    /// Where a key is listed twice, the first entry governs every
    /// lookup.
    pub permissions: Vec<(PublicKey, PrivUserPermissions)>,
    /// The current index of the data when this permission change happened.
    pub map_version: u64,
    /// The current index of the owners when this permission change happened.
    pub owners_index: u64,
}

impl PrivPermissions {
    /// The decision this snapshot induces: the requester must hold an
    /// explicit entry and its bit for the action must be set; absence
    /// denies everything.
    pub open spec fn spec_allows(self, requester: PublicKey, action: Action) -> bool {
        match spec_lookup_priv(self.permissions@, requester) {
            Some(p) => p.spec_is_allowed(action),
            None => false,
        }
    }

    /// Looks up the permission set recorded for `key`.
    fn lookup(&self, key: &PublicKey) -> (r: Option<PrivUserPermissions>)
        ensures
            r == spec_lookup_priv(self.permissions@, *key),
    {
        let n = self.permissions.len();
        let mut i: usize = 0;
        assert(self.permissions@.skip(0) =~= self.permissions@);
        while i < n
            invariant
                i <= n,
                n == self.permissions@.len(),
                spec_lookup_priv(self.permissions@, *key) == spec_lookup_priv(
                    self.permissions@.skip(i as int),
                    *key,
                ),
            decreases n - i,
        {
            assert(self.permissions@.skip(i as int)[0] == self.permissions@[i as int]);
            if self.permissions[i].0 == *key {
                return Some(self.permissions[i].1);
            }
            assert(self.permissions@.skip(i as int).drop_first() =~= self.permissions@.skip(
                i + 1,
            ));
            i = i + 1;
        }
        assert(self.permissions@.skip(n as int).len() == 0);
        None
    }
}

/// A user's permission set, public or private.
#[derive(Clone, Copy, PartialEq, Eq, Structural, Hash, Debug)]
pub enum UserPermissions {
    /// Public permissions set.
    Pub(PubUserPermissions),
    /// Private permissions set.
    Priv(PrivUserPermissions),
}

/// Wrapper type for permission snapshots, which can be public or private.
#[derive(Clone, PartialEq, Eq, Hash, Debug)]
pub enum Permissions {
    /// Public permissions.
    Pub(PubPermissions),
    /// Private permissions.
    Priv(PrivPermissions),
}

impl Permissions {
    /// The decision this snapshot induces for `requester` and `action`.
    pub open spec fn spec_allows(self, requester: PublicKey, action: Action) -> bool {
        match self {
            Permissions::Pub(p) => p.spec_allows(requester, action),
            Permissions::Priv(p) => p.spec_allows(requester, action),
        }
    }

    /// Whether this snapshot is a public one.
    pub open spec fn spec_is_pub(self) -> bool {
        self is Pub
    }

    /// The data version this snapshot was pinned to.
    pub open spec fn spec_map_version(self) -> u64 {
        match self {
            Permissions::Pub(p) => p.map_version,
            Permissions::Priv(p) => p.map_version,
        }
    }

    /// The owners index this snapshot was pinned to.
    pub open spec fn spec_owners_index(self) -> u64 {
        match self {
            Permissions::Pub(p) => p.owners_index,
            Permissions::Priv(p) => p.owners_index,
        }
    }

    /// The permission set this snapshot records for `user`, if any.
    pub open spec fn spec_user_permissions(self, user: User) -> Option<UserPermissions> {
        match self {
            Permissions::Pub(p) => p.perm_user_permissions(user),
            Permissions::Priv(p) => p.perm_user_permissions(user),
        }
    }

    /// Returns `Ok(())` if this snapshot allows `requester` to perform
    /// `action` and `Err(AccessDenied)` otherwise.
    pub fn is_action_allowed(&self, requester: PublicKey, action: Action) -> (r: Result<
        (),
        Error,
    >)
        ensures
            r is Ok <==> self.spec_allows(requester, action),
            r is Err ==> r == Err::<(), Error>(Error::AccessDenied),
    {
        match self {
            Permissions::Pub(p) => p.is_action_allowed(requester, action),
            Permissions::Priv(p) => p.is_action_allowed(requester, action),
        }
    }

    /// Gets the permissions this snapshot records for a user, if any.
    pub fn user_permissions(&self, user: User) -> (r: Option<UserPermissions>)
        ensures
            r == self.spec_user_permissions(user),
    {
        match self {
            Permissions::Pub(p) => p.user_permissions(user),
            Permissions::Priv(p) => p.user_permissions(user),
        }
    }
}

impl From<PubPermissions> for Permissions {
    fn from(permissions: PubPermissions) -> (r: Self) {
        Permissions::Pub(permissions)
    }
}

impl vstd::std_specs::convert::FromSpecImpl<PubPermissions> for Permissions {
    open spec fn obeys_from_spec() -> bool {
        true
    }

    open spec fn from_spec(permissions: PubPermissions) -> Self {
        Permissions::Pub(permissions)
    }
}

impl From<PrivPermissions> for Permissions {
    fn from(permissions: PrivPermissions) -> (r: Self) {
        Permissions::Priv(permissions)
    }
}

impl vstd::std_specs::convert::FromSpecImpl<PrivPermissions> for Permissions {
    open spec fn obeys_from_spec() -> bool {
        true
    }

    open spec fn from_spec(permissions: PrivPermissions) -> Self {
        Permissions::Priv(permissions)
    }
}

impl From<PubUserPermissions> for UserPermissions {
    fn from(permission_set: PubUserPermissions) -> (r: Self) {
        UserPermissions::Pub(permission_set)
    }
}

impl vstd::std_specs::convert::FromSpecImpl<PubUserPermissions> for UserPermissions {
    open spec fn obeys_from_spec() -> bool {
        true
    }

    open spec fn from_spec(permission_set: PubUserPermissions) -> Self {
        UserPermissions::Pub(permission_set)
    }
}

impl From<PrivUserPermissions> for UserPermissions {
    fn from(permission_set: PrivUserPermissions) -> (r: Self) {
        UserPermissions::Priv(permission_set)
    }
}

impl vstd::std_specs::convert::FromSpecImpl<PrivUserPermissions> for UserPermissions {
    open spec fn obeys_from_spec() -> bool {
        true
    }

    open spec fn from_spec(permission_set: PrivUserPermissions) -> Self {
        UserPermissions::Priv(permission_set)
    }
}

/// One snapshot of a map's permission matrix: the decision it induces,
/// the per-user sets it records, and the versions it is pinned to.
pub trait Perm: Sized {
    /// The decision this snapshot induces for `requester` and `action`.
    spec fn perm_allows(&self, requester: PublicKey, action: Action) -> bool;

    /// The permission set this snapshot records for `user`, if any.
    spec fn perm_user_permissions(&self, user: User) -> Option<UserPermissions>;

    /// The data version this snapshot was pinned to.
    spec fn perm_map_version(&self) -> u64;

    /// The owners index this snapshot was pinned to.
    spec fn perm_owners_index(&self) -> u64;

    /// Returns `Ok(())` if `action` is allowed for the provided requester
    /// and `Err(AccessDenied)` if this action is not permitted.
    fn is_action_allowed(&self, requester: PublicKey, action: Action) -> (r: Result<(), Error>)
        ensures
            r is Ok <==> self.perm_allows(requester, action),
            r is Err ==> r == Err::<(), Error>(Error::AccessDenied),
    ;

    /// Gets the permissions for a user if applicable.
    fn user_permissions(&self, user: User) -> (r: Option<UserPermissions>)
        ensures
            r == self.perm_user_permissions(user),
    ;

    /// Gets the last entry index.
    fn map_version(&self) -> (r: u64)
        ensures
            r == self.perm_map_version(),
    ;

    /// Gets the last owner index.
    fn owners_index(&self) -> (r: u64)
        ensures
            r == self.perm_owners_index(),
    ;
}

impl Perm for PubPermissions {
    open spec fn perm_allows(&self, requester: PublicKey, action: Action) -> bool {
        self.spec_allows(requester, action)
    }

    open spec fn perm_user_permissions(&self, user: User) -> Option<UserPermissions> {
        match spec_lookup_pub(self.permissions@, user) {
            Some(p) => Some(UserPermissions::Pub(p)),
            None => None,
        }
    }

    open spec fn perm_map_version(&self) -> u64 {
        self.map_version
    }

    open spec fn perm_owners_index(&self) -> u64 {
        self.owners_index
    }

    fn is_action_allowed(&self, requester: PublicKey, action: Action) -> (r: Result<(), Error>) {
        match action {
            Action::Read => Ok(()),
            Action::Delete => Err(Error::AccessDenied),
            _ => {
                let own = self.is_action_allowed_by_user(&User::Key(requester), action);
                let decided = match own {
                    Some(b) => Some(b),
                    None => self.is_action_allowed_by_user(&User::Anyone, action),
                };
                match decided {
                    Some(true) => Ok(()),
                    Some(false) => Err(Error::AccessDenied),
                    None => Err(Error::AccessDenied),
                }
            },
        }
    }

    fn user_permissions(&self, user: User) -> (r: Option<UserPermissions>) {
        match self.lookup(&user) {
            Some(p) => Some(UserPermissions::Pub(p)),
            None => None,
        }
    }

    fn map_version(&self) -> (r: u64) {
        self.map_version
    }

    fn owners_index(&self) -> (r: u64) {
        self.owners_index
    }
}

impl Perm for PrivPermissions {
    open spec fn perm_allows(&self, requester: PublicKey, action: Action) -> bool {
        self.spec_allows(requester, action)
    }

    open spec fn perm_user_permissions(&self, user: User) -> Option<UserPermissions> {
        match user {
            User::Anyone => None,
            User::Key(key) => match spec_lookup_priv(self.permissions@, key) {
                Some(p) => Some(UserPermissions::Priv(p)),
                None => None,
            },
        }
    }

    open spec fn perm_map_version(&self) -> u64 {
        self.map_version
    }

    open spec fn perm_owners_index(&self) -> u64 {
        self.owners_index
    }

    fn is_action_allowed(&self, requester: PublicKey, action: Action) -> (r: Result<(), Error>) {
        match self.lookup(&requester) {
            Some(perms) => {
                if perms.is_allowed(action) {
                    Ok(())
                } else {
                    Err(Error::AccessDenied)
                }
            },
            None => Err(Error::AccessDenied),
        }
    }

    fn user_permissions(&self, user: User) -> (r: Option<UserPermissions>) {
        match user {
            User::Anyone => None,
            User::Key(key) => match self.lookup(&key) {
                Some(p) => Some(UserPermissions::Priv(p)),
                None => None,
            },
        }
    }

    fn map_version(&self) -> (r: u64) {
        self.map_version
    }

    fn owners_index(&self) -> (r: u64) {
        self.owners_index
    }
}

/// Reading public data is always allowed: for every public permission
/// snapshot, every requester and `Action::Read`, the snapshot's decision
/// is a grant, whatever it stores.
pub proof fn lemma_public_read_always_allowed(perms: PubPermissions, requester: PublicKey)
    ensures
        perms.spec_allows(requester, Action::Read),
{
}

/// Deleting public data is never allowed: for every public permission
/// snapshot and every requester, the snapshot's decision on
/// `Action::Delete` is a denial, whatever it stores.
pub proof fn lemma_public_delete_always_denied(perms: PubPermissions, requester: PublicKey)
    ensures
        !perms.spec_allows(requester, Action::Delete),
{
}

/// Private data denies by default: a requester without an entry in a
/// private permission snapshot is denied every action.
pub proof fn lemma_private_default_deny(
    perms: PrivPermissions,
    requester: PublicKey,
    action: Action,
)
    requires
        spec_lookup_priv(perms.permissions@, requester) is None,
    ensures
        !perms.spec_allows(requester, action),
{
}

} // verus!
