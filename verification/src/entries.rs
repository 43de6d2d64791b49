//! The replicated entry store: per-key, per-actor write registers that
//! keep the greatest write per register. Merging is commutative and
//! idempotent, so replicas that exchange the same operations converge.

use vstd::prelude::*;

use crate::types::PublicKey;

verus! {

broadcast use vstd::set::group_set_axioms;

/// A key in a map.
pub type Key = Vec<u8>;

/// A value stored for any key in a map.
pub type Value = Vec<u8>;

/// A replicable operation on the entry store: one write to the register
/// of `(key, actor)`. A `value` of `None` marks a deletion.
#[derive(Clone, PartialEq, Eq, Hash, Debug)]
pub struct EntryOp {
    /// The key written.
    pub key: Key,
    /// The actor that issued the write.
    pub actor: PublicKey,
    /// The issuing replica's logical time for the write.
    pub counter: u64,
    /// The written value; `None` removes the entry.
    pub value: Option<Value>,
}

/// The mathematical shape of an entry operation.
pub struct EntryOpView {
    /// The key written.
    pub key: Seq<u8>,
    /// The actor that issued the write.
    pub actor: PublicKey,
    /// The issuing replica's logical time for the write.
    pub counter: u64,
    /// The written value; `None` removes the entry.
    pub value: Option<Seq<u8>>,
}

impl EntryOp {
    /// The mathematical shape of this operation.
    pub open spec fn view_of(self) -> EntryOpView {
        EntryOpView {
            key: self.key@,
            actor: self.actor,
            counter: self.counter,
            value: match self.value {
                Some(v) => Some(v@),
                None => None,
            },
        }
    }
}

/// The registers of one replica: what each written `(key, actor)` pair
/// currently holds, as counter and value.
pub type RegMap = Map<(Seq<u8>, PublicKey), (u64, Option<Seq<u8>>)>;

/// The register an operation addresses.
pub open spec fn op_reg(op: EntryOpView) -> (Seq<u8>, PublicKey) {
    (op.key, op.actor)
}

/// One merge step: the addressed register keeps the write with the
/// greater counter; at equal counters the write already held stays.
pub open spec fn apply_reg(m: RegMap, op: EntryOpView) -> RegMap {
    let k = op_reg(op);
    if m.dom().contains(k) && m[k].0 >= op.counter {
        m
    } else {
        m.insert(k, (op.counter, op.value))
    }
}

/// Every operation of the sequence merged in order, left to right.
pub open spec fn apply_reg_all(m: RegMap, ops: Seq<EntryOpView>) -> RegMap
    decreases ops.len(),
{
    if ops.len() == 0 {
        m
    } else {
        apply_reg(apply_reg_all(m, ops.drop_last()), ops.last())
    }
}

/// A set of operations is coherent when no register sees two distinct
/// writes with the same counter. Locally generated operations are, since
/// each replica stamps its writes with a strictly growing counter.
pub open spec fn ops_coherent(s: Set<EntryOpView>) -> bool {
    forall|o1: EntryOpView, o2: EntryOpView|
        s.contains(o1) && s.contains(o2) && op_reg(o1) == op_reg(o2) && o1.counter == o2.counter
            ==> o1 == o2
}

/// `o` is a write to register `k` in `s` that no other write to `k`
/// in `s` exceeds.
pub open spec fn is_max_for(
    s: Set<EntryOpView>,
    k: (Seq<u8>, PublicKey),
    o: EntryOpView,
) -> bool {
    s.contains(o) && op_reg(o) == k && forall|o2: EntryOpView|
        s.contains(o2) && op_reg(o2) == k ==> o2.counter <= o.counter
}

/// The state every replica reaches after incorporating exactly the
/// operations in `s`: each written register holds its greatest write.
pub open spec fn converged_state(s: Set<EntryOpView>) -> RegMap {
    Map::new(
        |k: (Seq<u8>, PublicKey)| exists|o: EntryOpView| s.contains(o) && op_reg(o) == k,
        |k: (Seq<u8>, PublicKey)|
            {
                let o = choose|o: EntryOpView| is_max_for(s, k, o);
                (o.counter, o.value)
            },
    )
}

/// Among finitely many writes to a register there is a greatest one.
proof fn lemma_exists_max(s: Set<EntryOpView>, k: (Seq<u8>, PublicKey))
    requires
        s.finite(),
        exists|o: EntryOpView| s.contains(o) && op_reg(o) == k,
    ensures
        exists|o: EntryOpView| is_max_for(s, k, o),
    decreases s.len(),
{
    let w = choose|o: EntryOpView| s.contains(o) && op_reg(o) == k;
    let rest = s.remove(w);
    if exists|o: EntryOpView| rest.contains(o) && op_reg(o) == k {
        lemma_exists_max(rest, k);
        let m = choose|o: EntryOpView| is_max_for(rest, k, o);
        if m.counter >= w.counter {
            assert(is_max_for(s, k, m));
        } else {
            assert(is_max_for(s, k, w));
        }
    } else {
        assert forall|o2: EntryOpView| s.contains(o2) && op_reg(o2) == k implies o2.counter
            <= w.counter by {
            if o2 != w {
                assert(rest.contains(o2));
            }
        }
        assert(is_max_for(s, k, w));
    }
}

/// In a coherent set the greatest write to a register is unique.
proof fn lemma_max_unique(
    s: Set<EntryOpView>,
    k: (Seq<u8>, PublicKey),
    o1: EntryOpView,
    o2: EntryOpView,
)
    requires
        ops_coherent(s),
        is_max_for(s, k, o1),
        is_max_for(s, k, o2),
    ensures
        o1 == o2,
{
    assert(o1.counter <= o2.counter);
    assert(o2.counter <= o1.counter);
}

/// Merging one more operation into the converged state of `s` yields the
/// converged state of `s` with the operation added.
pub proof fn lemma_apply_converged(s: Set<EntryOpView>, op: EntryOpView)
    requires
        s.finite(),
        ops_coherent(s.insert(op)),
    ensures
        apply_reg(converged_state(s), op) == converged_state(s.insert(op)),
{
    let m = converged_state(s);
    let s2 = s.insert(op);
    let m2 = converged_state(s2);
    let r = apply_reg(m, op);
    let k = op_reg(op);

    assert(ops_coherent(s));

    // Registers other than the one `op` addresses are untouched.
    assert forall|kk: (Seq<u8>, PublicKey)| kk != k implies (m.dom().contains(kk)
        == m2.dom().contains(kk)) && (m.dom().contains(kk) ==> m[kk] == m2[kk]) by {
        if exists|o: EntryOpView| s.contains(o) && op_reg(o) == kk {
            assert(m.dom().contains(kk));
            assert(m2.dom().contains(kk));
            lemma_exists_max(s, kk);
            lemma_exists_max(s2, kk);
            let o1 = choose|o: EntryOpView| is_max_for(s, kk, o);
            let o2 = choose|o: EntryOpView| is_max_for(s2, kk, o);
            assert(o2 != op);
            assert(s.contains(o2));
            assert(is_max_for(s, kk, o2));
            lemma_max_unique(s, kk, o1, o2);
        } else {
            assert(!m.dom().contains(kk));
            if exists|o: EntryOpView| s2.contains(o) && op_reg(o) == kk {
                let o = choose|o: EntryOpView| s2.contains(o) && op_reg(o) == kk;
                assert(o != op);
                assert(s.contains(o));
                assert(false);
            }
            assert(!m2.dom().contains(kk));
        }
    }

    // The addressed register ends as the greatest write among `s2`.
    assert(m2.dom().contains(k));
    lemma_exists_max(s2, k);
    let w2 = choose|o: EntryOpView| is_max_for(s2, k, o);
    if m.dom().contains(k) && m[k].0 >= op.counter {
        lemma_exists_max(s, k);
        let w1 = choose|o: EntryOpView| is_max_for(s, k, o);
        assert(m[k] == (w1.counter, w1.value));
        assert(op.counter <= w1.counter);
        assert(is_max_for(s2, k, w1));
        lemma_max_unique(s2, k, w1, w2);
        assert(r[k] == m2[k]);
    } else {
        if m.dom().contains(k) {
            lemma_exists_max(s, k);
            let w1 = choose|o: EntryOpView| is_max_for(s, k, o);
            assert(m[k] == (w1.counter, w1.value));
            assert forall|o2: EntryOpView| s2.contains(o2) && op_reg(o2) == k implies o2.counter
                <= op.counter by {
                if o2 != op {
                    assert(s.contains(o2));
                    assert(o2.counter <= w1.counter);
                }
            }
            assert(is_max_for(s2, k, op));
        } else {
            assert forall|o2: EntryOpView| s2.contains(o2) && op_reg(o2) == k implies o2.counter
                <= op.counter by {
                if o2 != op {
                    assert(s.contains(o2) && op_reg(o2) == k);
                    assert(exists|o: EntryOpView| s.contains(o) && op_reg(o) == k);
                    assert(false);
                }
            }
            assert(is_max_for(s2, k, op));
        }
        lemma_max_unique(s2, k, op, w2);
        assert(r[k] == (op.counter, op.value));
        assert(r[k] == m2[k]);
    }

    assert(r =~= m2);
}

/// Merging a sequence of operations from the empty state lands exactly
/// on the converged state of the set of those operations: order and
/// duplication of delivery do not matter.
pub proof fn lemma_apply_all_converged(ops: Seq<EntryOpView>)
    requires
        ops_coherent(ops.to_set()),
    ensures
        apply_reg_all(Map::empty(), ops) == converged_state(ops.to_set()),
    decreases ops.len(),
{
    broadcast use vstd::seq_lib::seq_to_set_is_finite;

    if ops.len() == 0 {
        assert forall|k: (Seq<u8>, PublicKey)| !converged_state(
            ops.to_set(),
        ).dom().contains(k) by {
            if exists|o: EntryOpView| ops.to_set().contains(o) && op_reg(o) == k {
                let o = choose|o: EntryOpView| ops.to_set().contains(o) && op_reg(o) == k;
                assert(ops.contains(o));
                assert(false);
            }
        }
        assert(apply_reg_all(Map::empty(), ops) =~= converged_state(ops.to_set()));
    } else {
        let pre = ops.drop_last();
        let last = ops.last();
        assert(pre.to_set().insert(last) =~= ops.to_set()) by {
            assert forall|o: EntryOpView| #[trigger] ops.to_set().contains(o) implies
                pre.to_set().insert(last).contains(o) by {
                let i = choose|i: int| 0 <= i < ops.len() && ops[i] == o;
                if i < ops.len() - 1 {
                    assert(pre[i] == o);
                    assert(pre.contains(o));
                }
            }
            assert forall|o: EntryOpView| pre.to_set().insert(last).contains(o) implies
                ops.to_set().contains(o) by {
                if pre.contains(o) {
                    let i = choose|i: int| 0 <= i < pre.len() && pre[i] == o;
                    assert(ops[i] == o);
                } else {
                    assert(ops[ops.len() - 1] == o);
                }
            }
        }
        assert forall|o1: EntryOpView, o2: EntryOpView|
            pre.to_set().contains(o1) && pre.to_set().contains(o2) && op_reg(o1) == op_reg(o2)
                && o1.counter == o2.counter implies o1 == o2 by {
            assert(ops.to_set().contains(o1));
            assert(ops.to_set().contains(o2));
        }
        lemma_apply_all_converged(pre);
        lemma_apply_converged(pre.to_set(), last);
    }
}

/// Convergence: two replicas that incorporate the same set of entry
/// operations — in any order, possibly with duplicates — hold identical
/// registers.
pub proof fn lemma_entries_convergence(ops1: Seq<EntryOpView>, ops2: Seq<EntryOpView>)
    requires
        ops1.to_set() == ops2.to_set(),
        ops_coherent(ops1.to_set()),
    ensures
        apply_reg_all(Map::empty(), ops1) == apply_reg_all(Map::empty(), ops2),
{
    lemma_apply_all_converged(ops1);
    lemma_apply_all_converged(ops2);
}

/// Idempotence: merging the same entry operation twice leaves the
/// registers exactly as merging it once does.
pub proof fn lemma_entries_idempotent(m: RegMap, op: EntryOpView)
    ensures
        apply_reg(apply_reg(m, op), op) == apply_reg(m, op),
{
}


/// Whether two byte strings are equal.
pub fn bytes_eq(a: &Vec<u8>, b: &Vec<u8>) -> (r: bool)
    ensures
        r == (a@ == b@),
{
    if a.len() != b.len() {
        return false;
    }
    let n = a.len();
    let mut i: usize = 0;
    while i < n
        invariant
            i <= n,
            n == a@.len(),
            n == b@.len(),
            forall|j: int| 0 <= j < i ==> a@[j] == b@[j],
        decreases n - i,
    {
        if a[i] != b[i] {
            return false;
        }
        i = i + 1;
    }
    proof {
        assert(a@ =~= b@);
    }
    true
}

/// A copy of a byte string.
pub fn bytes_clone(a: &Vec<u8>) -> (r: Vec<u8>)
    ensures
        r@ == a@,
{
    let n = a.len();
    let mut r: Vec<u8> = Vec::new();
    let mut i: usize = 0;
    while i < n
        invariant
            i <= n,
            n == a@.len(),
            r@ == a@.take(i as int),
        decreases n - i,
    {
        r.push(a[i]);
        proof {
            assert(r@ =~= a@.take(i + 1));
        }
        i = i + 1;
    }
    proof {
        assert(a@.take(n as int) =~= a@);
    }
    r
}

/// Whether `a` orders strictly before `b`, by words, most significant
/// first: the tie-break between concurrent writes with equal counters.
pub open spec fn pk_lt(a: PublicKey, b: PublicKey) -> bool {
    a.w3 < b.w3 || (a.w3 == b.w3 && (a.w2 < b.w2 || (a.w2 == b.w2 && (a.w1 < b.w1 || (a.w1
        == b.w1 && a.w0 < b.w0)))))
}

/// Compares two identities in the tie-break order.
fn pk_less(a: &PublicKey, b: &PublicKey) -> (r: bool)
    ensures
        r == pk_lt(*a, *b),
{
    if a.w3 != b.w3 {
        a.w3 < b.w3
    } else if a.w2 != b.w2 {
        a.w2 < b.w2
    } else if a.w1 != b.w1 {
        a.w1 < b.w1
    } else {
        a.w0 < b.w0
    }
}

/// Whether the write `(c1, a1)` orders no later than `(c2, a2)`: the
/// greater counter wins, the greater actor breaks ties.
pub open spec fn write_le(c1: u64, a1: PublicKey, c2: u64, a2: PublicKey) -> bool {
    c1 < c2 || (c1 == c2 && (a1 == a2 || pk_lt(a1, a2)))
}

/// The register of `a` decides `key` in `m`: it holds the latest write.
pub open spec fn is_key_winner(m: RegMap, key: Seq<u8>, a: PublicKey) -> bool {
    m.dom().contains((key, a)) && forall|a2: PublicKey|
        m.dom().contains((key, a2)) ==> write_le(m[(key, a2)].0, a2, m[(key, a)].0, a)
}

/// The visible value under `key` in `m`: the value of the deciding
/// register, absent where nothing was written or the latest write
/// deleted the entry.
pub open spec fn visible(m: RegMap, key: Seq<u8>) -> Option<Seq<u8>> {
    if exists|a: PublicKey| is_key_winner(m, key, a) {
        let a = choose|a: PublicKey| is_key_winner(m, key, a);
        m[(key, a)].1
    } else {
        None
    }
}

/// At most one register decides a key.
proof fn lemma_winner_unique(m: RegMap, key: Seq<u8>, a1: PublicKey, a2: PublicKey)
    requires
        is_key_winner(m, key, a1),
        is_key_winner(m, key, a2),
    ensures
        a1 == a2,
{
    assert(write_le(m[(key, a1)].0, a1, m[(key, a2)].0, a2));
    assert(write_le(m[(key, a2)].0, a2, m[(key, a1)].0, a1));
}

/// The distinct keys written by a sequence of operations, in first
/// occurrence order.
pub open spec fn distinct_keys(s: Seq<EntryOpView>) -> Seq<Seq<u8>>
    decreases s.len(),
{
    if s.len() == 0 {
        Seq::empty()
    } else {
        let pre = distinct_keys(s.drop_last());
        if pre.contains(s.last().key) {
            pre
        } else {
            pre.push(s.last().key)
        }
    }
}

/// The entry store of one replica: every incorporated write in arrival
/// order, with the distinct keys in first-arrival order beside it.
pub struct EntryStore {
    /// Every incorporated write, in arrival order.
    pub ops: Vec<EntryOp>,
    /// The distinct keys ever written, in first-arrival order.
    pub key_order: Vec<Key>,
}

impl EntryStore {
    /// The operations this replica has incorporated, in arrival order.
    pub open spec fn spec_ops(self) -> Seq<EntryOpView> {
        Seq::new(self.ops@.len(), |i: int| self.ops@[i].view_of())
    }

    /// The registers this replica currently holds.
    pub open spec fn spec_state(self) -> RegMap {
        apply_reg_all(Map::empty(), self.spec_ops())
    }

    /// The distinct keys written, in first-arrival order.
    pub open spec fn spec_keys(self) -> Seq<Seq<u8>> {
        Seq::new(self.key_order@.len(), |i: int| self.key_order@[i]@)
    }

    /// The key list mirrors the operation log.
    pub open spec fn wf(self) -> bool {
        self.spec_keys() == distinct_keys(self.spec_ops())
    }

    /// An empty store.
    pub fn new() -> (r: Self)
        ensures
            r.wf(),
            r.spec_ops() == Seq::<EntryOpView>::empty(),
    {
        let r = EntryStore { ops: Vec::new(), key_order: Vec::new() };
        proof {
            assert(r.spec_ops() =~= Seq::<EntryOpView>::empty());
            assert(r.spec_keys() =~= distinct_keys(r.spec_ops()));
        }
        r
    }

    /// Whether some write to `key` has been incorporated.
    pub fn has_key(&self, key: &Vec<u8>) -> (r: bool)
        ensures
            r == self.spec_keys().contains(key@),
    {
        let n = self.key_order.len();
        let mut i: usize = 0;
        while i < n
            invariant
                i <= n,
                n == self.key_order@.len(),
                forall|j: int| 0 <= j < i ==> self.spec_keys()[j] != key@,
            decreases n - i,
        {
            if bytes_eq(&self.key_order[i], key) {
                proof {
                    assert(self.spec_keys()[i as int] == key@);
                }
                return true;
            }
            i = i + 1;
        }
        proof {
            if self.spec_keys().contains(key@) {
                let j = choose|j: int| 0 <= j < n && self.spec_keys()[j] == key@;
                assert(false);
            }
        }
        false
    }

    /// Incorporates one write, local or remote. The registers step by
    /// exactly one merge, so re-delivering an operation already merged
    /// leaves them unchanged.
    pub fn apply_op(&mut self, op: EntryOp)
        requires
            old(self).wf(),
        ensures
            final(self).wf(),
            final(self).spec_ops() == old(self).spec_ops().push(op.view_of()),
            final(self).spec_state() == apply_reg(old(self).spec_state(), op.view_of()),
            final(self).spec_keys() == (if old(self).spec_keys().contains(op.key@) {
                old(self).spec_keys()
            } else {
                old(self).spec_keys().push(op.key@)
            }),
    {
        if !self.has_key(&op.key) {
            let k = bytes_clone(&op.key);
            self.key_order.push(k);
        }
        self.ops.push(op);
        proof {
            assert(self.spec_ops().drop_last() =~= old(self).spec_ops());
            assert(self.spec_ops() =~= old(self).spec_ops().push(op.view_of()));
            if old(self).spec_keys().contains(op.key@) {
                assert(self.spec_keys() =~= old(self).spec_keys());
            } else {
                assert(self.spec_keys() =~= old(self).spec_keys().push(op.key@));
            }
        }
    }
}


/// The write order is transitive.
proof fn lemma_write_le_trans(
    c1: u64,
    a1: PublicKey,
    c2: u64,
    a2: PublicKey,
    c3: u64,
    a3: PublicKey,
)
    requires
        write_le(c1, a1, c2, a2),
        write_le(c2, a2, c3, a3),
    ensures
        write_le(c1, a1, c3, a3),
{
}

/// Identities are totally ordered by the tie-break.
proof fn lemma_pk_total(a: PublicKey, b: PublicKey)
    ensures
        pk_lt(a, b) || pk_lt(b, a) || a == b,
{
}

impl EntryStore {
    /// The visible value under `key`: the value of the register with the
    /// latest write to the key — greatest counter, greatest actor on a
    /// tie — or nothing where no write remains visible.
    pub fn get_resolved(&self, key: &Vec<u8>) -> (r: Option<&Value>)
        ensures
            match r {
                Some(v) => visible(self.spec_state(), key@) == Some(v@),
                None => visible(self.spec_state(), key@) is None,
            },
    {
        let n = self.ops.len();
        let mut best: Option<usize> = None;
        let mut i: usize = 0;
        proof {
            assert(self.spec_ops().take(0) =~= Seq::<EntryOpView>::empty());
        }
        while i < n
            invariant
                i <= n,
                n == self.ops@.len(),
                match best {
                    None => forall|a: PublicKey|
                        !apply_reg_all(
                            Map::empty(),
                            self.spec_ops().take(i as int),
                        ).dom().contains((key@, a)),
                    Some(j) => {
                        let m = apply_reg_all(Map::empty(), self.spec_ops().take(i as int));
                        let w = self.spec_ops()[j as int];
                        j < i && w.key == key@ && is_key_winner(m, key@, w.actor) && m[(
                            key@,
                            w.actor,
                        )] == (w.counter, w.value)
                    },
                },
            decreases n - i,
        {
            let ghost m = apply_reg_all(Map::empty(), self.spec_ops().take(i as int));
            let ghost m2 = apply_reg_all(Map::empty(), self.spec_ops().take(i + 1));
            let ghost v = self.spec_ops()[i as int];
            proof {
                assert(self.spec_ops().take(i + 1).drop_last() =~= self.spec_ops().take(i as int));
                assert(self.spec_ops().take(i + 1).last() == v);
                assert(m2 == apply_reg(m, v));
            }
            let opi = &self.ops[i];
            proof {
                assert(v == opi.view_of());
            }
            if bytes_eq(&opi.key, key) {
                match best {
                    None => {
                        proof {
                            assert(!m.dom().contains((key@, v.actor)));
                            assert(m2 == m.insert((key@, v.actor), (v.counter, v.value)));
                            assert forall|a2: PublicKey| m2.dom().contains(
                                (key@, a2),
                            ) implies write_le(m2[(key@, a2)].0, a2, m2[(key@, v.actor)].0, v.actor) by {
                                assert(a2 == v.actor);
                            }
                            assert(is_key_winner(m2, key@, v.actor));
                        }
                        best = Some(i);
                    },
                    Some(j) => {
                        let replace = {
                            let bj = &self.ops[j];
                            bj.counter < opi.counter || (bj.counter == opi.counter && pk_less(
                                &bj.actor,
                                &opi.actor,
                            ))
                        };
                        let ghost w = self.spec_ops()[j as int];
                        let ghost c = w.counter;
                        let ghost a = w.actor;
                        if replace {
                            proof {
                                // the old register of this actor cannot beat the new write
                                if m.dom().contains((key@, v.actor)) && m[(key@, v.actor)].0
                                    >= v.counter {
                                    assert(write_le(m[(key@, v.actor)].0, v.actor, c, a));
                                    assert(false);
                                }
                                assert(m2 == m.insert((key@, v.actor), (v.counter, v.value)));
                                assert forall|a2: PublicKey| m2.dom().contains(
                                    (key@, a2),
                                ) implies write_le(
                                    m2[(key@, a2)].0,
                                    a2,
                                    m2[(key@, v.actor)].0,
                                    v.actor,
                                ) by {
                                    if a2 != v.actor {
                                        assert(m2[(key@, a2)] == m[(key@, a2)]);
                                        assert(write_le(m[(key@, a2)].0, a2, c, a));
                                        assert(write_le(c, a, v.counter, v.actor));
                                        lemma_write_le_trans(
                                            m[(key@, a2)].0,
                                            a2,
                                            c,
                                            a,
                                            v.counter,
                                            v.actor,
                                        );
                                    }
                                }
                                assert(is_key_winner(m2, key@, v.actor));
                            }
                            best = Some(i);
                        } else {
                            proof {
                                if m.dom().contains((key@, v.actor)) && m[(key@, v.actor)].0
                                    >= v.counter {
                                    // the merge is a no-op; the winner stands
                                    assert(m2 == m);
                                } else {
                                    assert(m2 == m.insert((key@, v.actor), (v.counter, v.value)));
                                    if a == v.actor {
                                        assert(m[(key@, a)].0 == c);
                                        assert(c < v.counter);
                                        assert(false);
                                    }
                                    assert(m2[(key@, a)] == m[(key@, a)]);
                                    assert forall|a2: PublicKey| m2.dom().contains(
                                        (key@, a2),
                                    ) implies write_le(m2[(key@, a2)].0, a2, m2[(key@, a)].0, a) by {
                                        if a2 == v.actor {
                                            lemma_pk_total(a, v.actor);
                                            assert(write_le(v.counter, v.actor, c, a));
                                        } else {
                                            assert(m2[(key@, a2)] == m[(key@, a2)]);
                                        }
                                    }
                                    assert(is_key_winner(m2, key@, a));
                                }
                            }
                        }
                    },
                }
            } else {
                proof {
                    assert(v.key != key@);
                    match best {
                        None => {
                            assert forall|a: PublicKey| !m2.dom().contains((key@, a)) by {
                                assert(!m.dom().contains((key@, a)));
                            }
                        },
                        Some(j) => {
                            let w = self.spec_ops()[j as int];
                            assert(m2[(key@, w.actor)] == m[(key@, w.actor)]);
                            assert forall|a2: PublicKey| m2.dom().contains(
                                (key@, a2),
                            ) implies write_le(m2[(key@, a2)].0, a2, m2[(key@, w.actor)].0, w.actor) by {
                                assert(m2[(key@, a2)] == m[(key@, a2)]);
                                assert(m.dom().contains((key@, a2)));
                            }
                            assert(is_key_winner(m2, key@, w.actor));
                        },
                    }
                }
            }
            i = i + 1;
        }
        proof {
            assert(self.spec_ops().take(n as int) =~= self.spec_ops());
        }
        match best {
            None => {
                proof {
                    if exists|a: PublicKey| is_key_winner(self.spec_state(), key@, a) {
                        let a = choose|a: PublicKey| is_key_winner(self.spec_state(), key@, a);
                        assert(false);
                    }
                }
                None
            },
            Some(j) => {
                proof {
                    let w = self.spec_ops()[j as int];
                    let a = choose|a: PublicKey| is_key_winner(self.spec_state(), key@, a);
                    lemma_winner_unique(self.spec_state(), key@, a, w.actor);
                }
                match &self.ops[j].value {
                    Some(v) => Some(v),
                    None => None,
                }
            },
        }
    }
}


/// What a reader sees of registers `m` through the keys `ks`, in order:
/// each key beside its visible value, deletions and unwritten keys
/// omitted.
pub open spec fn spec_visible_list(m: RegMap, ks: Seq<Seq<u8>>) -> Seq<(Seq<u8>, Seq<u8>)>
    decreases ks.len(),
{
    if ks.len() == 0 {
        Seq::empty()
    } else {
        let pre = spec_visible_list(m, ks.drop_last());
        match visible(m, ks.last()) {
            Some(v) => pre.push((ks.last(), v)),
            None => pre,
        }
    }
}

impl EntryStore {
    /// The entries a reader sees: each written key in first-arrival
    /// order beside its visible value.
    pub open spec fn spec_entries(self) -> Seq<(Seq<u8>, Seq<u8>)> {
        spec_visible_list(self.spec_state(), self.spec_keys())
    }

    /// How many operations this replica has incorporated.
    pub fn ops_len(&self) -> (r: usize)
        ensures
            r == self.spec_ops().len(),
    {
        self.ops.len()
    }

    /// The entries a reader currently sees, as owned pairs.
    pub fn entries_snapshot(&self) -> (r: Vec<(Key, Value)>)
        ensures
            Seq::new(r@.len(), |t: int| (r@[t].0@, r@[t].1@)) == self.spec_entries(),
    {
        let n = self.key_order.len();
        let mut out: Vec<(Key, Value)> = Vec::new();
        let mut i: usize = 0;
        proof {
            assert(self.spec_keys().take(0) =~= Seq::<Seq<u8>>::empty());
            assert(Seq::new(out@.len(), |t: int| (out@[t].0@, out@[t].1@))
                =~= spec_visible_list(self.spec_state(), self.spec_keys().take(0)));
        }
        while i < n
            invariant
                i <= n,
                n == self.key_order@.len(),
                Seq::new(out@.len(), |t: int| (out@[t].0@, out@[t].1@)) == spec_visible_list(
                    self.spec_state(),
                    self.spec_keys().take(i as int),
                ),
            decreases n - i,
        {
            proof {
                assert(self.spec_keys().take(i + 1).drop_last() =~= self.spec_keys().take(
                    i as int,
                ));
                assert(self.spec_keys().take(i + 1).last() == self.spec_keys()[i as int]);
            }
            let k = &self.key_order[i];
            match self.get_resolved(k) {
                Some(v) => {
                    let kk = bytes_clone(k);
                    let vv = bytes_clone(v);
                    out.push((kk, vv));
                },
                None => {},
            }
            proof {
                assert(Seq::new(out@.len(), |t: int| (out@[t].0@, out@[t].1@))
                    =~= spec_visible_list(self.spec_state(), self.spec_keys().take(i + 1)));
            }
            i = i + 1;
        }
        proof {
            assert(self.spec_keys().take(n as int) =~= self.spec_keys());
        }
        out
    }
}

} // verus!
