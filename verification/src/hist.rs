//! The ordered, append-only history sequences, kept as replicated lists
//! of the `crdts` crate. Everything stated here about those lists is
//! taken on trust against their source: the histories they hold, the
//! value, kind, dot and well-formedness of an operation, and each
//! actor's entry in a list's clock. An operation is covered — merging
//! it again is a no-op — exactly when its dot's counter is at most the
//! clock's entry for its actor.

use vstd::prelude::*;

use crate::perms::Permissions;
use crate::types::{Owner, PublicKey};

verus! {

#[verifier::external_type_specification]
#[verifier::external_body]
#[verifier::reject_recursive_types(T)]
#[verifier::reject_recursive_types(A)]
/// The replicated ordered sequence of the `crdts` crate.
pub struct ExList<T, A: Ord>(crdts::list::List<T, A>);

#[verifier::external_type_specification]
#[verifier::external_body]
#[verifier::reject_recursive_types(T)]
#[verifier::reject_recursive_types(A)]
/// A replicable operation on such a sequence.
pub struct ExListOp<T, A: Ord>(crdts::list::Op<T, A>);

/// A replicable operation on a permission history.
pub type PermissionsOp = crdts::list::Op<Permissions, PublicKey>;

/// A replicable operation on an owner history.
pub type OwnerOp = crdts::list::Op<Owner, PublicKey>;

/// The permission snapshots a history holds, in its converged order.
pub uninterp spec fn perm_hist(l: crdts::list::List<Permissions, PublicKey>) -> Seq<Permissions>;

/// The snapshot a permission-history operation carries.
pub uninterp spec fn perm_op_val(op: PermissionsOp) -> Permissions;

/// Whether a permission-history operation is an insertion (as every
/// operation a local append builds is), not a deletion.
pub uninterp spec fn perm_op_is_insert(op: PermissionsOp) -> bool;

/// The dot a permission-history operation carries: the issuing actor
/// and that actor's counter for the write.
pub uninterp spec fn perm_op_dot(op: PermissionsOp) -> (PublicKey, u64);

/// Whether a permission-history operation is well formed: its
/// identifier holds a non-empty path ending in its dot, as every
/// operation a local append builds. Merging a malformed one — say,
/// deserialised from a hostile wire value — would panic inside the
/// dependency, so the merge wrappers exclude such values.
pub uninterp spec fn perm_op_wf(op: PermissionsOp) -> bool;

/// The counter a permission history's clock records for `actor`
/// (zero for an actor it has never seen).
pub uninterp spec fn perm_actor_counter(
    l: crdts::list::List<Permissions, PublicKey>,
    actor: PublicKey,
) -> u64;

/// Whether a permission history's clock covers the operation's dot, so
/// that merging it again is a no-op.
pub open spec fn perm_seen(
    l: crdts::list::List<Permissions, PublicKey>,
    op: PermissionsOp,
) -> bool {
    perm_op_dot(op).1 <= perm_actor_counter(l, perm_op_dot(op).0)
}

/// The owner records a history holds, in its converged order.
pub uninterp spec fn owner_hist(l: crdts::list::List<Owner, PublicKey>) -> Seq<Owner>;

/// The record an owner-history operation carries.
pub uninterp spec fn owner_op_val(op: OwnerOp) -> Owner;

/// Whether an owner-history operation is an insertion (as every
/// operation a local append builds is), not a deletion.
pub uninterp spec fn owner_op_is_insert(op: OwnerOp) -> bool;

/// The dot an owner-history operation carries: the issuing actor and
/// that actor's counter for the write.
pub uninterp spec fn owner_op_dot(op: OwnerOp) -> (PublicKey, u64);

/// Whether an owner-history operation is well formed: its identifier
/// holds a non-empty path ending in its dot, as every operation a
/// local append builds. Merging a malformed one — say, deserialised
/// from a hostile wire value — would panic inside the dependency, so
/// the merge wrappers exclude such values.
pub uninterp spec fn owner_op_wf(op: OwnerOp) -> bool;

/// The counter an owner history's clock records for `actor`
/// (zero for an actor it has never seen).
pub uninterp spec fn owner_actor_counter(
    l: crdts::list::List<Owner, PublicKey>,
    actor: PublicKey,
) -> u64;

/// Whether an owner history's clock covers the operation's dot, so
/// that merging it again is a no-op.
pub open spec fn owner_seen(l: crdts::list::List<Owner, PublicKey>, op: OwnerOp) -> bool {
    owner_op_dot(op).1 <= owner_actor_counter(l, owner_op_dot(op).0)
}

/// Relies on `crdts::list::List::new`: a fresh list is empty and its
/// clock records zero for every actor.
#[verifier::external_body]
pub(crate) fn perm_list_new() -> (r: crdts::list::List<Permissions, PublicKey>)
    ensures
        perm_hist(r) == Seq::<Permissions>::empty(),
        forall|a: PublicKey| perm_actor_counter(r, a) == 0,
{
    crdts::list::List::new()
}

/// Relies on `crdts::list::List::append` and `apply`: `append` builds a
/// well-formed insertion ordered after every element held, whose dot
/// carries `actor`'s next counter, and `apply` merges it, so the local
/// sequence grows by the value at its end and `actor`'s counter steps
/// by one. The counter bound keeps that step — `crdts` increments it
/// with unchecked addition — from overflowing.
#[verifier::external_body]
pub(crate) fn perm_list_append(
    l: &mut crdts::list::List<Permissions, PublicKey>,
    v: Permissions,
    actor: PublicKey,
) -> (op: PermissionsOp)
    requires
        perm_actor_counter(*old(l), actor) < u64::MAX,
    ensures
        perm_hist(*final(l)) == perm_hist(*old(l)).push(v),
        perm_op_val(op) == v,
        perm_op_is_insert(op),
        perm_op_wf(op),
        perm_op_dot(op) == (actor, (perm_actor_counter(*old(l), actor) + 1) as u64),
        perm_actor_counter(*final(l), actor) == perm_actor_counter(*old(l), actor) + 1,
        forall|a: PublicKey|
            a != actor ==> perm_actor_counter(*final(l), a) == perm_actor_counter(*old(l), a),
{
    let op = l.append(v, actor);
    crdts::CmRDT::apply(l, op.clone());
    op
}

/// Relies on `crdts::list::List::apply`: an operation whose dot the
/// clock already covers is a no-op; merging an uncovered one raises
/// exactly its actor's counter to the dot's counter; an uncovered
/// insertion adds its value where its identifier orders — its
/// identifier cannot already be held, since a held identifier's dot is
/// always covered — and an uncovered deletion removes the identified
/// element if held. Only well-formed operations may be merged: `apply`
/// reads the dot from the identifier's path and panics on an empty one.
#[verifier::external_body]
pub(crate) fn perm_list_apply(
    l: &mut crdts::list::List<Permissions, PublicKey>,
    op: &PermissionsOp,
)
    requires
        perm_op_wf(*op),
    ensures
        perm_seen(*old(l), *op) ==> perm_hist(*final(l)) == perm_hist(*old(l)) && forall|
            a: PublicKey,
        | perm_actor_counter(*final(l), a) == perm_actor_counter(*old(l), a),
        !perm_seen(*old(l), *op) ==> perm_actor_counter(*final(l), perm_op_dot(*op).0)
            == perm_op_dot(*op).1 && forall|a: PublicKey|
            a != perm_op_dot(*op).0 ==> perm_actor_counter(*final(l), a) == perm_actor_counter(
                *old(l),
                a,
            ),
        !perm_seen(*old(l), *op) && perm_op_is_insert(*op) ==> exists|i: int|
            0 <= i <= perm_hist(*old(l)).len() && perm_hist(*final(l)) == perm_hist(
                *old(l),
            ).insert(i, perm_op_val(*op)),
        !perm_op_is_insert(*op) ==> perm_hist(*final(l)) == perm_hist(*old(l)) || (exists|i: int|
            0 <= i < perm_hist(*old(l)).len() && perm_hist(*final(l)) == perm_hist(
                *old(l),
            ).remove(i)),
{
    crdts::CmRDT::apply(l, op.clone());
}

/// Relies on `crdts::list::List::len`: the number of elements held.
#[verifier::external_body]
pub(crate) fn perm_list_len(l: &crdts::list::List<Permissions, PublicKey>) -> (r: usize)
    ensures
        r == perm_hist(*l).len(),
{
    l.len()
}

/// Relies on `crdts::list::List::last`: the element ordered last, if any.
#[verifier::external_body]
pub(crate) fn perm_list_last(
    l: &crdts::list::List<Permissions, PublicKey>,
) -> (r: Option<&Permissions>)
    ensures
        match r {
            Some(p) => perm_hist(*l).len() > 0 && *p == perm_hist(*l).last(),
            None => perm_hist(*l).len() == 0,
        },
{
    l.last()
}

/// Relies on `crdts::list::List::new`: a fresh list is empty and its
/// clock records zero for every actor.
#[verifier::external_body]
pub(crate) fn owner_list_new() -> (r: crdts::list::List<Owner, PublicKey>)
    ensures
        owner_hist(r) == Seq::<Owner>::empty(),
        forall|a: PublicKey| owner_actor_counter(r, a) == 0,
{
    crdts::list::List::new()
}

/// Relies on `crdts::list::List::append` and `apply`: `append` builds a
/// well-formed insertion ordered after every element held, whose dot
/// carries `actor`'s next counter, and `apply` merges it, so the local
/// sequence grows by the value at its end and `actor`'s counter steps
/// by one. The counter bound keeps that step — `crdts` increments it
/// with unchecked addition — from overflowing.
#[verifier::external_body]
pub(crate) fn owner_list_append(
    l: &mut crdts::list::List<Owner, PublicKey>,
    v: Owner,
    actor: PublicKey,
) -> (op: OwnerOp)
    requires
        owner_actor_counter(*old(l), actor) < u64::MAX,
    ensures
        owner_hist(*final(l)) == owner_hist(*old(l)).push(v),
        owner_op_val(op) == v,
        owner_op_is_insert(op),
        owner_op_wf(op),
        owner_op_dot(op) == (actor, (owner_actor_counter(*old(l), actor) + 1) as u64),
        owner_actor_counter(*final(l), actor) == owner_actor_counter(*old(l), actor) + 1,
        forall|a: PublicKey|
            a != actor ==> owner_actor_counter(*final(l), a) == owner_actor_counter(*old(l), a),
{
    let op = l.append(v, actor);
    crdts::CmRDT::apply(l, op.clone());
    op
}

/// Relies on `crdts::list::List::apply`: an operation whose dot the
/// clock already covers is a no-op; merging an uncovered one raises
/// exactly its actor's counter to the dot's counter; an uncovered
/// insertion adds its value where its identifier orders — its
/// identifier cannot already be held, since a held identifier's dot is
/// always covered — and an uncovered deletion removes the identified
/// element if held. Only well-formed operations may be merged: `apply`
/// reads the dot from the identifier's path and panics on an empty one.
#[verifier::external_body]
pub(crate) fn owner_list_apply(l: &mut crdts::list::List<Owner, PublicKey>, op: &OwnerOp)
    requires
        owner_op_wf(*op),
    ensures
        owner_seen(*old(l), *op) ==> owner_hist(*final(l)) == owner_hist(*old(l)) && forall|
            a: PublicKey,
        | owner_actor_counter(*final(l), a) == owner_actor_counter(*old(l), a),
        !owner_seen(*old(l), *op) ==> owner_actor_counter(*final(l), owner_op_dot(*op).0)
            == owner_op_dot(*op).1 && forall|a: PublicKey|
            a != owner_op_dot(*op).0 ==> owner_actor_counter(*final(l), a)
                == owner_actor_counter(*old(l), a),
        !owner_seen(*old(l), *op) && owner_op_is_insert(*op) ==> exists|i: int|
            0 <= i <= owner_hist(*old(l)).len() && owner_hist(*final(l)) == owner_hist(
                *old(l),
            ).insert(i, owner_op_val(*op)),
        !owner_op_is_insert(*op) ==> owner_hist(*final(l)) == owner_hist(*old(l)) || (exists|
            i: int,
        |
            0 <= i < owner_hist(*old(l)).len() && owner_hist(*final(l)) == owner_hist(
                *old(l),
            ).remove(i)),
{
    crdts::CmRDT::apply(l, op.clone());
}

/// Relies on `crdts::list::List::len`: the number of elements held.
#[verifier::external_body]
pub(crate) fn owner_list_len(l: &crdts::list::List<Owner, PublicKey>) -> (r: usize)
    ensures
        r == owner_hist(*l).len(),
{
    l.len()
}

/// Relies on `crdts::list::List::last`: the element ordered last, if any.
#[verifier::external_body]
pub(crate) fn owner_list_last(l: &crdts::list::List<Owner, PublicKey>) -> (r: Option<&Owner>)
    ensures
        match r {
            Some(p) => owner_hist(*l).len() > 0 && *p == owner_hist(*l).last(),
            None => owner_hist(*l).len() == 0,
        },
{
    l.last()
}

} // verus!
