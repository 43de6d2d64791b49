//! Behavioural tests for the map core: access control, history pinning,
//! replica exchange, and the address codec.

use mapdata::entries::EntryOp;
use mapdata::map_data::{Data, MapCrdt};
use mapdata::perms::{
    Permissions, PrivUserPermissions, PubUserPermissions, UserPermissions,
};
use mapdata::request::{AuthorisationKind, Response, SDataMutationOperation, SDataRequest, Type};
use mapdata::types::{Action, Address, Error, Kind, Owner, PublicKey, SDataIndex, User, XorName};

fn pk(n: u64) -> PublicKey {
    PublicKey { w0: n, w1: n.wrapping_mul(3), w2: 7, w3: 11 }
}

fn name(n: u64) -> XorName {
    XorName { w0: n, w1: 2, w2: 3, w3: 4 }
}

fn pub_addr(n: u64, tag: u64) -> Address {
    Address::Public { name: name(n), tag }
}

fn priv_addr(n: u64, tag: u64) -> Address {
    Address::Private { name: name(n), tag }
}

#[test]
fn kind_and_address_accessors() {
    assert!(Kind::Public.is_pub());
    assert!(!Kind::Public.is_priv());
    assert!(Kind::Private.is_priv());
    let a = Address::from_kind(Kind::Private, name(9), 42);
    assert_eq!(a.kind(), Kind::Private);
    assert_eq!(*a.name(), name(9));
    assert_eq!(a.tag(), 42);
    assert!(a.is_private());
    assert!(!a.is_public());
    let b = Address::from_kind(Kind::Public, name(1), 0);
    assert!(b.is_public());
}

#[test]
fn address_zbase32_round_trip_public() {
    let a = pub_addr(0xdead_beef_1234_5678, u64::MAX);
    let s = a.encode_to_zbase32();
    let back = Address::decode_from_zbase32(&s).unwrap();
    assert_eq!(back, a);
}

#[test]
fn address_zbase32_round_trip_private() {
    let a = Address::Private {
        name: XorName { w0: u64::MAX, w1: 0, w2: 1, w3: u64::MAX - 1 },
        tag: 0,
    };
    let s = a.encode_to_zbase32();
    let back = Address::decode_from_zbase32(&s).unwrap();
    assert_eq!(back, a);
}

#[test]
fn address_zbase32_exact_form() {
    // The all-zero public address serialises to 41 zero bytes; their
    // z-base-32 multibase text is the 'h' prefix and 66 'y' digits.
    let a = Address::Public { name: XorName { w0: 0, w1: 0, w2: 0, w3: 0 }, tag: 0 };
    let s = a.encode_to_zbase32();
    let mut expected = String::from("h");
    for _ in 0..66 {
        expected.push('y');
    }
    assert_eq!(s, expected);
}

#[test]
fn address_zbase32_rejects_garbage() {
    assert_eq!(Address::decode_from_zbase32("!!!"), Err(Error::FailedToParse));
    // A valid multibase text of the wrong length is rejected too.
    assert_eq!(Address::decode_from_zbase32("hyy"), Err(Error::FailedToParse));
}

#[test]
fn pub_user_permissions_table() {
    let p = PubUserPermissions::new(Some(false), Some(true), None, Some(false));
    // Public data: reading always allowed, deleting never, whatever is set.
    assert_eq!(p.is_allowed(Action::Read), Some(true));
    assert_eq!(p.is_allowed(Action::Delete), Some(false));
    assert_eq!(p.is_allowed(Action::Insert), Some(true));
    assert_eq!(p.is_allowed(Action::Update), None);
    assert_eq!(p.is_allowed(Action::ManagePermissions), Some(false));
    let mut q = p;
    q.set_perms(None, None, Some(true), None);
    assert_eq!(q.is_allowed(Action::Update), Some(true));
    assert_eq!(q.is_allowed(Action::Insert), None);
}

#[test]
fn priv_user_permissions_table() {
    let p = PrivUserPermissions::new(true, false, true, false, true);
    assert!(p.is_allowed(Action::Read));
    assert!(!p.is_allowed(Action::Insert));
    assert!(p.is_allowed(Action::Update));
    assert!(!p.is_allowed(Action::Delete));
    assert!(p.is_allowed(Action::ManagePermissions));
    let mut q = p;
    q.set_perms(false, true, false, true, false);
    assert!(!q.is_allowed(Action::Read));
    assert!(q.is_allowed(Action::Delete));
}

#[test]
fn public_map_read_allowed_insert_denied_without_grants() {
    // Public map, no explicit permissions appended yet: any requester
    // may read, none may insert.
    let owner = pk(1);
    let stranger = pk(99);
    let mut map = MapCrdt::new(owner, pub_addr(5, 100));
    map.store(owner).unwrap();
    // Reads succeed for anyone, even on an empty map the access check
    // passes and only the missing key is reported.
    assert_eq!(map.authorize(stranger, Action::Read), Ok(()));
    assert_eq!(map.get_entry(stranger, &b"k".to_vec()), Err(Error::NoSuchEntry));
    // Absence denies non-Read public actions.
    assert_eq!(
        map.insert(stranger, b"k".to_vec(), b"v".to_vec()),
        Err(Error::AccessDenied)
    );
    // Deleting public data is denied even for the owner.
    assert_eq!(map.delete_entry(owner, b"k".to_vec()), Err(Error::AccessDenied));
}

#[test]
fn private_map_scenario_grant_insert_then_reassign_owner() {
    // Private map owned by K1; K1 grants {insert} to K2; K2 can insert
    // but not delete; after K1 hands ownership to K2, K1 can no longer
    // manage permissions.
    let k1 = pk(1);
    let k2 = pk(2);
    let mut map = MapCrdt::new(k1, priv_addr(6, 7));
    map.store(k1).unwrap();

    let grant = PrivUserPermissions::new(false, true, false, false, false);
    map.mutate_priv_permissions(k1, vec![(k2, grant)]).unwrap();

    assert!(map.insert(k2, b"k".to_vec(), b"v".to_vec()).is_ok());
    assert_eq!(map.delete_entry(k2, b"k".to_vec()), Err(Error::AccessDenied));

    map.mutate_owner(k1, k2).unwrap();
    assert_eq!(
        map.mutate_priv_permissions(k1, vec![(k1, grant)]),
        Err(Error::AccessDenied)
    );
    // The new owner can.
    assert!(map.mutate_priv_permissions(k2, vec![(k1, grant)]).is_ok());
}

#[test]
fn private_map_default_deny_without_entry() {
    let k1 = pk(1);
    let stranger = pk(50);
    let mut map = MapCrdt::new(k1, priv_addr(8, 1));
    map.store(k1).unwrap();
    let grant = PrivUserPermissions::new(true, true, true, true, true);
    map.mutate_priv_permissions(k1, vec![(k1, grant)]).unwrap();
    // No entry for the stranger: every action is denied.
    assert_eq!(map.authorize(stranger, Action::Read), Err(Error::AccessDenied));
    assert_eq!(map.authorize(stranger, Action::Insert), Err(Error::AccessDenied));
    assert_eq!(map.authorize(stranger, Action::Update), Err(Error::AccessDenied));
    assert_eq!(map.authorize(stranger, Action::Delete), Err(Error::AccessDenied));
    assert_eq!(
        map.authorize(stranger, Action::ManagePermissions),
        Err(Error::AccessDenied)
    );
}

#[test]
fn entry_flow_insert_update_delete() {
    let k1 = pk(1);
    let mut map = MapCrdt::new(k1, priv_addr(3, 3));
    map.store(k1).unwrap();
    assert!(map.insert(k1, b"a".to_vec(), b"1".to_vec()).is_ok());
    assert_eq!(
        map.insert(k1, b"a".to_vec(), b"2".to_vec()),
        Err(Error::EntryExists)
    );
    assert_eq!(
        map.update(k1, b"b".to_vec(), b"2".to_vec()),
        Err(Error::NoSuchEntry)
    );
    assert!(map.update(k1, b"a".to_vec(), b"2".to_vec()).is_ok());
    assert_eq!(map.get_entry(k1, &b"a".to_vec()), Ok(&b"2".to_vec()));
    assert!(map.delete_entry(k1, b"a".to_vec()).is_ok());
    assert_eq!(map.get_entry(k1, &b"a".to_vec()), Err(Error::NoSuchEntry));
    assert_eq!(map.delete_entry(k1, b"a".to_vec()), Err(Error::NoSuchEntry));
}

#[test]
fn range_and_last_entry() {
    let k1 = pk(1);
    let mut map = MapCrdt::new(k1, priv_addr(4, 4));
    map.store(k1).unwrap();
    let grant = PrivUserPermissions::new(true, true, true, true, true);
    map.mutate_priv_permissions(k1, vec![(k1, grant)]).unwrap();
    assert_eq!(map.get_last_entry(k1), Err(Error::NoSuchEntry));
    map.insert(k1, b"a".to_vec(), b"1".to_vec()).unwrap();
    map.insert(k1, b"b".to_vec(), b"2".to_vec()).unwrap();
    map.insert(k1, b"c".to_vec(), b"3".to_vec()).unwrap();
    let all = map
        .get_range(k1, SDataIndex::FromStart(0), SDataIndex::FromEnd(0))
        .unwrap();
    assert_eq!(
        all,
        vec![
            (b"a".to_vec(), b"1".to_vec()),
            (b"b".to_vec(), b"2".to_vec()),
            (b"c".to_vec(), b"3".to_vec()),
        ]
    );
    let last_two = map
        .get_range(k1, SDataIndex::FromEnd(2), SDataIndex::FromEnd(0))
        .unwrap();
    assert_eq!(
        last_two,
        vec![(b"b".to_vec(), b"2".to_vec()), (b"c".to_vec(), b"3".to_vec())]
    );
    let first_two = map
        .get_range(k1, SDataIndex::FromStart(0), SDataIndex::FromStart(2))
        .unwrap();
    assert_eq!(first_two.len(), 2);
    assert_eq!(
        map.get_range(k1, SDataIndex::FromEnd(9), SDataIndex::FromEnd(0)),
        Err(Error::NoSuchEntry)
    );
    assert_eq!(
        map.get_range(k1, SDataIndex::FromStart(2), SDataIndex::FromStart(1)),
        Err(Error::NoSuchEntry)
    );
    assert_eq!(map.get_last_entry(k1), Ok((b"c".to_vec(), b"3".to_vec())));
}

#[test]
fn monotonic_pinning_of_appended_records() {
    let k1 = pk(1);
    let mut map = MapCrdt::new(k1, priv_addr(10, 10));
    map.store(k1).unwrap();
    let owner = map.get_owner(k1).unwrap();
    assert_eq!(owner.map_version, 0);
    assert_eq!(owner.permissions_index, 0);

    let grant = PrivUserPermissions::new(true, true, true, true, true);
    map.mutate_priv_permissions(k1, vec![(k1, grant)]).unwrap();
    map.insert(k1, b"a".to_vec(), b"1".to_vec()).unwrap();
    map.mutate_priv_permissions(k1, vec![(k1, grant)]).unwrap();

    // The latest snapshot is pinned to the exact version and owner
    // count at its append: one entry op, one owner record.
    match map.get_permissions(k1).unwrap() {
        Permissions::Priv(p) => {
            assert_eq!(p.map_version, 1);
            assert_eq!(p.owners_index, 1);
        }
        Permissions::Pub(_) => panic!("private map holds private snapshots"),
    }
    assert!(map.version() >= 1);

    map.mutate_owner(k1, pk(2)).unwrap();
    let owner2 = map.get_owner(k1).unwrap();
    assert_eq!(owner2.public_key, pk(2));
    assert_eq!(owner2.map_version, 1);
    assert_eq!(owner2.permissions_index, 2);
}

#[test]
fn permission_variant_must_match_map_kind() {
    let k1 = pk(1);
    let mut pub_map = MapCrdt::new(k1, pub_addr(1, 1));
    pub_map.store(k1).unwrap();
    let mut priv_map = MapCrdt::new(k1, priv_addr(1, 1));
    priv_map.store(k1).unwrap();

    let priv_grant = PrivUserPermissions::new(true, true, true, true, true);
    assert_eq!(
        pub_map.mutate_priv_permissions(k1, vec![(k1, priv_grant)]),
        Err(Error::InvalidOperation)
    );
    let pub_grant = PubUserPermissions::new(None, Some(true), None, None);
    assert_eq!(
        priv_map.mutate_pub_permissions(k1, vec![(User::Anyone, pub_grant)]),
        Err(Error::InvalidOperation)
    );
}

#[test]
fn store_only_once() {
    let k1 = pk(1);
    let mut map = MapCrdt::new(k1, priv_addr(2, 2));
    assert!(map.store(k1).is_ok());
    assert_eq!(map.store(k1), Err(Error::InvalidOperation));
}

#[test]
fn delete_map_rules() {
    let k1 = pk(1);
    let stranger = pk(9);
    let mut pub_map = MapCrdt::new(k1, pub_addr(1, 2));
    pub_map.store(k1).unwrap();
    assert_eq!(pub_map.delete_map(k1), Err(Error::InvalidOperation));

    let mut priv_map = MapCrdt::new(k1, priv_addr(1, 2));
    priv_map.store(k1).unwrap();
    assert_eq!(priv_map.delete_map(stranger), Err(Error::AccessDenied));
    assert_eq!(priv_map.delete_map(k1), Ok(()));
    // Removed is terminal: nothing is allowed afterwards.
    assert_eq!(priv_map.delete_map(k1), Err(Error::InvalidOperation));
    assert_eq!(priv_map.authorize(k1, Action::Read), Err(Error::AccessDenied));
    assert_eq!(
        priv_map.insert(k1, b"k".to_vec(), b"v".to_vec()),
        Err(Error::AccessDenied)
    );
}

#[test]
fn replicas_converge_whatever_the_delivery_order() {
    // Two replicas of one map, both owned by K, exchange the same set
    // of operations in different orders and with duplicates, and end
    // with identical visible data, permissions and owners.
    let k = pk(1);
    let addr = pub_addr(77, 7);
    let mut r1 = MapCrdt::new(pk(101), addr);
    let mut r2 = MapCrdt::new(pk(102), addr);

    let store_op = r1.store(k).unwrap();
    r2.apply_owner_op(&store_op);

    let grant = PubUserPermissions::new(None, Some(true), None, None);
    let perm_op = r1
        .mutate_pub_permissions(k, vec![(User::Anyone, grant)])
        .unwrap();
    let e1 = r1.insert(k, b"a".to_vec(), b"1".to_vec()).unwrap();
    // r2 generates its own entry op concurrently (the owner may write
    // before the permission op arrives there).
    let e2 = r2.insert(k, b"b".to_vec(), b"2".to_vec()).unwrap();

    // Deliver to r1: r2's op, then a duplicate of its own.
    r1.apply_data_op(e2.clone());
    r1.apply_data_op(e1.clone());
    // Deliver to r2: permission op, r1's entry op twice.
    r2.apply_permissions_op(&perm_op);
    r2.apply_data_op(e1.clone());
    r2.apply_data_op(e1.clone());
    r2.apply_data_op(e2.clone());

    assert_eq!(
        r1.get_entry(k, &b"a".to_vec()),
        r2.get_entry(k, &b"a".to_vec())
    );
    assert_eq!(
        r1.get_entry(k, &b"b".to_vec()),
        r2.get_entry(k, &b"b".to_vec())
    );
    assert_eq!(r1.get_permissions(k), r2.get_permissions(k));
    assert_eq!(r1.get_owner(k), r2.get_owner(k));
}

#[test]
fn applying_an_operation_twice_changes_nothing_more() {
    let k = pk(1);
    let addr = priv_addr(70, 7);
    let mut r1 = MapCrdt::new(pk(101), addr);
    let mut r2 = MapCrdt::new(pk(102), addr);

    let store_op = r1.store(k).unwrap();
    let grant = PrivUserPermissions::new(true, true, true, true, true);
    let perm_op = r1.mutate_priv_permissions(k, vec![(k, grant)]).unwrap();
    let entry_op = r1.insert(k, b"x".to_vec(), b"y".to_vec()).unwrap();

    r2.apply_owner_op(&store_op);
    r2.apply_permissions_op(&perm_op);
    r2.apply_data_op(entry_op.clone());
    let owners_once = r2.owners_len();
    let perms_once = r2.permissions_len();
    let value_once = r2.get_entry(k, &b"x".to_vec()).unwrap().clone();

    // Re-deliver everything.
    r2.apply_owner_op(&store_op);
    r2.apply_permissions_op(&perm_op);
    r2.apply_data_op(entry_op.clone());

    assert_eq!(r2.owners_len(), owners_once);
    assert_eq!(r2.permissions_len(), perms_once);
    assert_eq!(r2.get_entry(k, &b"x".to_vec()), Ok(&value_once));
}

#[test]
fn concurrent_writes_to_one_key_resolve_deterministically() {
    // Both replicas write the same fresh key concurrently; after the
    // exchange both see the same winner.
    let k = pk(1);
    let addr = pub_addr(12, 1);
    let mut r1 = MapCrdt::new(pk(101), addr);
    let mut r2 = MapCrdt::new(pk(102), addr);
    let store_op = r1.store(k).unwrap();
    r2.apply_owner_op(&store_op);

    let e1 = r1.insert(k, b"k".to_vec(), b"from-r1".to_vec()).unwrap();
    let e2 = r2.insert(k, b"k".to_vec(), b"from-r2".to_vec()).unwrap();
    r1.apply_data_op(e2.clone());
    r2.apply_data_op(e1.clone());
    let v1 = r1.get_entry(k, &b"k".to_vec()).unwrap().clone();
    let v2 = r2.get_entry(k, &b"k".to_vec()).unwrap().clone();
    assert_eq!(v1, v2);
}

#[test]
fn request_get_type_and_authorisation_kind() {
    let pa = pub_addr(1, 1);
    let qa = priv_addr(1, 1);
    assert!(matches!(SDataRequest::Get(pa).get_type(), Type::PublicGet));
    assert!(matches!(SDataRequest::Get(qa).get_type(), Type::PrivateGet));
    assert!(matches!(
        SDataRequest::GetRange { address: pa, range: (SDataIndex::FromStart(0), SDataIndex::FromEnd(0)) }
            .get_type(),
        Type::PublicGet
    ));
    assert!(matches!(SDataRequest::Delete(qa).get_type(), Type::Mutation));
    assert!(matches!(
        SDataRequest::Get(pa).authorisation_kind(),
        AuthorisationKind::GetPub
    ));
    assert!(matches!(
        SDataRequest::GetOwner(qa).authorisation_kind(),
        AuthorisationKind::GetPriv
    ));
    assert!(matches!(
        SDataRequest::Delete(pa).authorisation_kind(),
        AuthorisationKind::Mutation
    ));
}

#[test]
fn request_error_response_mirrors_shape() {
    let pa = pub_addr(2, 2);
    assert!(matches!(
        SDataRequest::Get(pa).error_response(Error::AccessDenied),
        Response::GetSData(Err(Error::AccessDenied))
    ));
    assert!(matches!(
        SDataRequest::GetRange {
            address: pa,
            range: (SDataIndex::FromStart(0), SDataIndex::FromEnd(0))
        }
        .error_response(Error::NoSuchEntry),
        Response::GetSDataRange(Err(Error::NoSuchEntry))
    ));
    assert!(matches!(
        SDataRequest::GetLastEntry(pa).error_response(Error::AccessDenied),
        Response::GetSDataLastEntry(Err(Error::AccessDenied))
    ));
    assert!(matches!(
        SDataRequest::GetPermissions(pa).error_response(Error::AccessDenied),
        Response::GetSDataPermissions(Err(Error::AccessDenied))
    ));
    assert!(matches!(
        SDataRequest::GetUserPermissions { address: pa, user: User::Anyone }
            .error_response(Error::AccessDenied),
        Response::GetSDataUserPermissions(Err(Error::AccessDenied))
    ));
    assert!(matches!(
        SDataRequest::GetOwner(pa).error_response(Error::AccessDenied),
        Response::GetSDataOwner(Err(Error::AccessDenied))
    ));
    assert!(matches!(
        SDataRequest::Delete(pa).error_response(Error::AccessDenied),
        Response::Mutation(Err(Error::AccessDenied))
    ));
}

#[test]
fn request_dest_address_routes_by_name() {
    let k = pk(1);
    let pa = pub_addr(31, 1);
    assert_eq!(SDataRequest::Get(pa).dest_address(), Some(name(31)));
    assert_eq!(SDataRequest::Delete(pa).dest_address(), Some(name(31)));

    let mut map = MapCrdt::new(k, pa);
    let owner_op = map.store(k).unwrap();
    let entry_op = EntryOp {
        key: b"k".to_vec(),
        actor: k,
        counter: 1,
        value: Some(b"v".to_vec()),
    };
    assert_eq!(
        SDataRequest::MutateOwner(SDataMutationOperation { address: pa, crdt_op: owner_op })
            .dest_address(),
        Some(name(31))
    );
    assert_eq!(
        SDataRequest::Mutate(SDataMutationOperation { address: pa, crdt_op: entry_op })
            .dest_address(),
        Some(name(31))
    );
    let store_req = SDataRequest::Store(Data::Public(map));
    assert_eq!(store_req.dest_address(), Some(name(31)));
    assert!(matches!(store_req.get_type(), Type::Mutation));
}

#[test]
fn user_permissions_lookup() {
    let k1 = pk(1);
    let k2 = pk(2);
    let mut map = MapCrdt::new(k1, pub_addr(40, 1));
    map.store(k1).unwrap();
    let anyone = PubUserPermissions::new(None, Some(true), None, None);
    let own = PubUserPermissions::new(None, Some(false), Some(true), None);
    map.mutate_pub_permissions(k1, vec![(User::Anyone, anyone), (User::Key(k2), own)])
        .unwrap();
    assert_eq!(
        map.get_user_permissions(k1, User::Key(k2)),
        Ok(UserPermissions::Pub(own))
    );
    assert_eq!(
        map.get_user_permissions(k1, User::Anyone),
        Ok(UserPermissions::Pub(anyone))
    );
    assert_eq!(
        map.get_user_permissions(k1, User::Key(pk(77))),
        Err(Error::NoSuchEntry)
    );
    // The explicit Some(false) for K2 overrides the Anyone grant.
    assert_eq!(map.authorize(k2, Action::Insert), Err(Error::AccessDenied));
    // A stranger falls back to the Anyone grant.
    assert_eq!(map.authorize(pk(77), Action::Insert), Ok(()));
}

#[test]
fn request_variant_names() {
    let pa = pub_addr(3, 3);
    assert_eq!(SDataRequest::Get(pa).variant_name(), "GetSData");
    assert_eq!(SDataRequest::Delete(pa).variant_name(), "DeleteSData");
    assert_eq!(
        SDataRequest::GetUserPermissions { address: pa, user: User::Anyone }.variant_name(),
        "GetSDataUserPermissions"
    );
}
