//! Run-time behaviour of a generated builder: one optional slot per field,
//! filled by setters and emptied by `build`.
use vstd::prelude::*;

verus! {

/// Slots after storing `v` into slot `i`: the new value replaces any earlier one.
pub open spec fn after_set<V>(s: Seq<Option<V>>, i: int, v: V) -> Seq<Option<V>> {
    s.update(i, Some(v))
}

/// Every slot holds a value.
pub open spec fn all_set<V>(s: Seq<Option<V>>) -> bool {
    forall|i: int| 0 <= i < s.len() ==> (#[trigger] s[i]) is Some
}

/// Index of the first empty slot, in field order; `s.len()` when none is empty.
pub open spec fn first_unset<V>(s: Seq<Option<V>>) -> nat
    decreases s.len(),
{
    if s.len() == 0 {
        0
    } else if s[0] is None {
        0
    } else {
        1 + first_unset(s.drop_first())
    }
}

/// The values that a successful `build` hands out, in field order.
pub open spec fn built_values<V>(s: Seq<Option<V>>) -> Seq<V> {
    Seq::new(s.len(), |i: int| s[i]->Some_0)
}

/// Slots after `build`: every slot up to and including the first empty one is
/// consumed; the slots after it are left as they were.
pub open spec fn slots_after_build<V>(s: Seq<Option<V>>) -> Seq<Option<V>> {
    Seq::new(s.len(), |i: int| if i <= first_unset(s) { None } else { s[i] })
}

/// Slots that all are empty.
pub open spec fn empty_slots<V>(n: nat) -> Seq<Option<V>> {
    Seq::new(n, |i: int| None)
}

/// Characterises `first_unset`: `k` is first_unset when every slot before it is
/// filled and it is the end or an empty slot.
pub proof fn lemma_first_unset_is<V>(s: Seq<Option<V>>, k: int)
    requires
        0 <= k <= s.len(),
        forall|j: int| 0 <= j < k ==> (#[trigger] s[j]) is Some,
        k == s.len() || s[k] is None,
    ensures
        first_unset(s) == k,
    decreases k,
{
    if k > 0 {
        assert(s[0] is Some);
        let t = s.drop_first();
        assert forall|j: int| 0 <= j < k - 1 implies (#[trigger] t[j]) is Some by {
            assert(t[j] == s[j + 1]);
        }
        if k < s.len() {
            assert(t[k - 1] == s[k]);
        }
        lemma_first_unset_is(t, k - 1);
    }
}

/// Bounds and meaning of `first_unset`.
pub proof fn lemma_first_unset_facts<V>(s: Seq<Option<V>>)
    ensures
        first_unset(s) <= s.len(),
        forall|j: int| 0 <= j < first_unset(s) ==> (#[trigger] s[j]) is Some,
        first_unset(s) < s.len() ==> s[first_unset(s) as int] is None,
        all_set(s) <==> first_unset(s) == s.len(),
    decreases s.len(),
{
    if s.len() > 0 && s[0] is Some {
        let t = s.drop_first();
        lemma_first_unset_facts(t);
        assert forall|j: int| 0 <= j < first_unset(s) implies (#[trigger] s[j]) is Some by {
            if j > 0 {
                assert(s[j] == t[j - 1]);
            }
        }
        if first_unset(s) < s.len() {
            assert(s[first_unset(s) as int] == t[first_unset(t) as int]);
        }
        if all_set(s) {
            assert forall|i: int| 0 <= i < t.len() implies (#[trigger] t[i]) is Some by {
                assert(t[i] == s[i + 1]);
            }
        }
        if first_unset(s) == s.len() {
            assert forall|i: int| 0 <= i < s.len() implies (#[trigger] s[i]) is Some by {}
        }
    } else if s.len() > 0 {
        assert(!all_set(s)) by {
            assert(s[0] is None);
        }
    }
}

/// Why `build` failed: the first field, in declaration order, that was never set.
#[derive(Debug, Clone, PartialEq, Eq)]
pub struct MissingField {
    pub field: String,
}

/// A builder for a record whose fields are named `names`: one optional value
/// slot per field.
pub struct SlotBuilder<V> {
    names: Vec<String>,
    slots: Vec<Option<V>>,
}

impl<V> SlotBuilder<V> {
    /// The field names, in declaration order.
    pub closed spec fn names(&self) -> Seq<Seq<char>> {
        self.names@.map_values(|s: String| s@)
    }

    /// The slots, one per field, in declaration order.
    pub closed spec fn slots(&self) -> Seq<Option<V>> {
        self.slots@
    }

    /// One slot per field.
    pub open spec fn wf(&self) -> bool {
        self.names().len() == self.slots().len()
    }

    /// A builder for fields `names` with every slot empty.
    pub fn new(names: Vec<String>) -> (b: Self)
        ensures
            b.wf(),
            b.names() == names@.map_values(|s: String| s@),
            b.slots() == empty_slots::<V>(names@.len()),
    {
        let mut slots: Vec<Option<V>> = Vec::new();
        let n = names.len();
        let mut i: usize = 0;
        while i < n
            invariant
                n == names@.len(),
                i <= n,
                slots@ == empty_slots::<V>(i as nat),
            decreases n - i,
        {
            slots.push(None);
            i = i + 1;
        }
        SlotBuilder { names, slots }
    }

    /// Stores `value` in slot `i`, replacing what was there, and hands back the
    /// same builder so that calls can be chained.
    pub fn set(&mut self, i: usize, value: V) -> (r: &mut Self)
        requires
            old(self).wf(),
            i < old(self).slots().len(),
        ensures
            r.wf(),
            r.names() == old(self).names(),
            r.slots() == after_set(old(self).slots(), i as int, value),
            *final(self) == *final(r),
    {
        self.slots.set(i, Some(value));
        self
    }

    /// Consumes the slots in declaration order. When every slot holds a value,
    /// returns those values and leaves every slot empty. Otherwise stops at the
    /// first empty slot and names its field; the slots before it have been
    /// consumed, the ones after it are untouched.
    pub fn build(&mut self) -> (r: Result<Vec<V>, MissingField>)
        requires
            old(self).wf(),
        ensures
            final(self).wf(),
            final(self).names() == old(self).names(),
            final(self).slots() == slots_after_build(old(self).slots()),
            r is Ok <==> all_set(old(self).slots()),
            r is Ok ==> r->Ok_0@ == built_values(old(self).slots()),
            r is Err ==> r->Err_0.field@ == old(self).names()[first_unset(old(self).slots()) as int],
    {
        let ghost s0 = self.slots@;
        proof {
            lemma_first_unset_facts(s0);
        }
        let n = self.slots.len();
        let mut values: Vec<V> = Vec::new();
        let mut i: usize = 0;
        while i < n
            invariant
                s0 == old(self).slots@,
                n == s0.len(),
                n == self.names@.len(),
                self.names@ == old(self).names@,
                i <= n,
                self.slots@.len() == n,
                forall|j: int| 0 <= j < i ==> (#[trigger] s0[j]) is Some,
                forall|j: int| 0 <= j < i ==> self.slots@[j] is None,
                forall|j: int| i <= j < n ==> self.slots@[j] == s0[j],
                values@ == built_values(s0).take(i as int),
            decreases n - i,
        {
            let slot = self.slots[i].take();
            match slot {
                Some(v) => {
                    values.push(v);
                },
                None => {
                    proof {
                        lemma_first_unset_is(s0, i as int);
                        assert(self.slots@ =~= slots_after_build(s0));
                    }
                    let field = self.names[i].clone();
                    return Err(MissingField { field });
                },
            }
            proof {
                assert(values@ =~= built_values(s0).take(i + 1));
            }
            i = i + 1;
        }
        proof {
            lemma_first_unset_is(s0, n as int);
            assert(self.slots@ =~= slots_after_build(s0));
            assert(values@ =~= built_values(s0));
        }
        Ok(values)
    }
}

} // verus!
