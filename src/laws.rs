//! Laws of the builder's run-time behaviour, stated over the slot model of
//! `slots` and proved.
use vstd::prelude::*;
use crate::slots::{after_set, all_set, built_values, empty_slots, first_unset, slots_after_build, lemma_first_unset_is};

verus! {

/// Slots after storing each `(index, value)` of `ops` in turn.
pub open spec fn apply_sets<V>(s: Seq<Option<V>>, ops: Seq<(int, V)>) -> Seq<Option<V>>
    decreases ops.len(),
{
    if ops.len() == 0 {
        s
    } else {
        after_set(apply_sets(s, ops.drop_last()), ops.last().0, ops.last().1)
    }
}

/// The value of the last write to slot `i` among `ops`, if there is one.
pub open spec fn last_write<V>(ops: Seq<(int, V)>, i: int) -> Option<V>
    decreases ops.len(),
{
    if ops.len() == 0 {
        None
    } else if ops.last().0 == i {
        Some(ops.last().1)
    } else {
        last_write(ops.drop_last(), i)
    }
}

/// Every write of `ops` targets one of `n` slots.
pub open spec fn ops_in_range<V>(ops: Seq<(int, V)>, n: nat) -> bool {
    forall|j: int| 0 <= j < ops.len() ==> 0 <= (#[trigger] ops[j]).0 < n
}

/// No two writes of `ops` target the same slot.
pub open spec fn ops_distinct<V>(ops: Seq<(int, V)>) -> bool {
    forall|j: int, k: int| 0 <= j < ops.len() && 0 <= k < ops.len() && j != k
        ==> (#[trigger] ops[j]).0 != (#[trigger] ops[k]).0
}

/// Some write of `ops` targets slot `i`.
pub open spec fn writes<V>(ops: Seq<(int, V)>, i: int) -> bool {
    exists|j: int| 0 <= j < ops.len() && (#[trigger] ops[j]).0 == i
}

/// After a series of writes, each slot holds the last value written to it,
/// or what it held before when nothing was written to it.
pub proof fn lemma_last_write_wins<V>(s: Seq<Option<V>>, ops: Seq<(int, V)>)
    requires
        ops_in_range(ops, s.len()),
    ensures
        apply_sets(s, ops).len() == s.len(),
        forall|i: int| 0 <= i < s.len() ==> (#[trigger] apply_sets(s, ops)[i]) == if last_write(ops, i) is Some {
            last_write(ops, i)
        } else {
            s[i]
        },
    decreases ops.len(),
{
    if ops.len() > 0 {
        let pre = ops.drop_last();
        assert forall|j: int| 0 <= j < pre.len() implies 0 <= (#[trigger] pre[j]).0 < s.len() by {
            assert(pre[j] == ops[j]);
        }
        assert(0 <= ops[ops.len() - 1].0 < s.len());
        lemma_last_write_wins(s, pre);
    }
}

/// A write to slot `i` exists among `ops` exactly when `last_write` finds one.
proof fn lemma_last_write_some<V>(ops: Seq<(int, V)>, i: int)
    ensures
        last_write(ops, i) is Some <==> writes(ops, i),
        last_write(ops, i) is Some ==> exists|j: int|
            0 <= j < ops.len() && (#[trigger] ops[j]).0 == i && last_write(ops, i) == Some(ops[j].1),
    decreases ops.len(),
{
    if ops.len() > 0 {
        let pre = ops.drop_last();
        lemma_last_write_some(pre, i);
        if writes(pre, i) {
            let j = choose|j: int| 0 <= j < pre.len() && (#[trigger] pre[j]).0 == i;
            assert(ops[j] == pre[j]);
        }
        if writes(ops, i) && ops.last().0 != i {
            let j = choose|j: int| 0 <= j < ops.len() && (#[trigger] ops[j]).0 == i;
            assert(pre[j] == ops[j]);
        }
        if last_write(ops, i) is Some && ops.last().0 != i {
            let j = choose|j: int|
                0 <= j < pre.len() && (#[trigger] pre[j]).0 == i && last_write(pre, i) == Some(pre[j].1);
            assert(ops[j] == pre[j]);
        }
    }
}

/// With no two writes to one slot, the last write to slot `i` is the only one.
proof fn lemma_last_write_unique<V>(ops: Seq<(int, V)>, j: int)
    requires
        ops_distinct(ops),
        0 <= j < ops.len(),
    ensures
        last_write(ops, ops[j].0) == Some(ops[j].1),
{
    let i = ops[j].0;
    lemma_last_write_some(ops, i);
    let k = choose|k: int| 0 <= k < ops.len() && (#[trigger] ops[k]).0 == i && last_write(ops, i) == Some(ops[k].1);
    assert(k == j);
}

/// Setting a field twice keeps only the second value.
pub proof fn law_overwrite_wins<V>(s: Seq<Option<V>>, i: int, v1: V, v2: V)
    requires
        0 <= i < s.len(),
    ensures
        after_set(after_set(s, i, v1), i, v2) == after_set(s, i, v2),
        built_values(after_set(after_set(s, i, v1), i, v2))[i] == v2,
{
    assert(after_set(after_set(s, i, v1), i, v2) =~= after_set(s, i, v2));
}

/// Setting every field of a fresh builder, in any order and any number of
/// times, each time to the field's value in `vals`, gives a builder whose
/// `build` succeeds with exactly `vals`.
pub proof fn law_complete_build<V>(vals: Seq<V>, ops: Seq<(int, V)>)
    requires
        ops_in_range(ops, vals.len()),
        forall|j: int| 0 <= j < ops.len() ==> (#[trigger] ops[j]).1 == vals[ops[j].0],
        forall|i: int| 0 <= i < vals.len() ==> #[trigger] writes(ops, i),
    ensures
        all_set(apply_sets(empty_slots::<V>(vals.len()), ops)),
        built_values(apply_sets(empty_slots::<V>(vals.len()), ops)) == vals,
{
    let s = apply_sets(empty_slots::<V>(vals.len()), ops);
    lemma_last_write_wins(empty_slots::<V>(vals.len()), ops);
    assert forall|i: int| 0 <= i < vals.len() implies (#[trigger] s[i]) == Some(vals[i]) by {
        lemma_last_write_some(ops, i);
    }
    assert(built_values(s) =~= vals);
}

/// On a fresh builder where every field before `k` was set and field `k` was
/// not, `build` fails at field `k`.
pub proof fn law_first_missing_reported<V>(n: nat, ops: Seq<(int, V)>, k: int)
    requires
        ops_in_range(ops, n),
        0 <= k < n,
        forall|i: int| 0 <= i < k ==> #[trigger] writes(ops, i),
        !writes(ops, k),
    ensures
        !all_set(apply_sets(empty_slots::<V>(n), ops)),
        first_unset(apply_sets(empty_slots::<V>(n), ops)) == k,
{
    let s = apply_sets(empty_slots::<V>(n), ops);
    lemma_last_write_wins(empty_slots::<V>(n), ops);
    assert forall|j: int| 0 <= j < k implies (#[trigger] s[j]) is Some by {
        lemma_last_write_some(ops, j);
    }
    lemma_last_write_some(ops, k);
    assert(s[k] is None);
    lemma_first_unset_is(s, k);
}

/// `build` empties the slots it reads, so a second `build` on a builder with
/// at least one field fails at the first field.
pub proof fn law_build_is_destructive<V>(s: Seq<Option<V>>)
    requires
        s.len() > 0,
    ensures
        !all_set(slots_after_build(s)),
        first_unset(slots_after_build(s)) == 0,
{
    let t = slots_after_build(s);
    assert(t[0] is None);
    lemma_first_unset_is(t, 0);
}

/// Setting distinct fields in reverse order leaves the same slots as setting
/// them in the original order.
pub proof fn law_order_independent<V>(s: Seq<Option<V>>, ops: Seq<(int, V)>)
    requires
        ops_in_range(ops, s.len()),
        ops_distinct(ops),
    ensures
        apply_sets(s, ops) == apply_sets(s, ops.reverse()),
{
    let r = ops.reverse();
    let n = ops.len() as int;
    assert forall|j: int| 0 <= j < r.len() implies 0 <= (#[trigger] r[j]).0 < s.len() by {
        assert(r[j] == ops[n - 1 - j]);
    }
    assert forall|j: int, k: int| 0 <= j < r.len() && 0 <= k < r.len() && j != k
        implies (#[trigger] r[j]).0 != (#[trigger] r[k]).0 by {
        assert(r[j] == ops[n - 1 - j]);
        assert(r[k] == ops[n - 1 - k]);
    }
    lemma_last_write_wins(s, ops);
    lemma_last_write_wins(s, r);
    assert forall|i: int| 0 <= i < s.len() implies last_write(ops, i) == last_write(r, i) by {
        lemma_last_write_some(ops, i);
        lemma_last_write_some(r, i);
        if writes(ops, i) {
            let j = choose|j: int| 0 <= j < ops.len() && (#[trigger] ops[j]).0 == i;
            lemma_last_write_unique(ops, j);
            assert(r[n - 1 - j] == ops[j]);
            lemma_last_write_unique(r, n - 1 - j);
        } else if writes(r, i) {
            let j = choose|j: int| 0 <= j < r.len() && (#[trigger] r[j]).0 == i;
            assert(r[j] == ops[n - 1 - j]);
        }
    }
    assert(apply_sets(s, ops) =~= apply_sets(s, r));
}

} // verus!
