//! The variable binding environment: a mapping from variable tags to bound
//! values whose contracts prove, before the program runs, that a value is
//! never read for a tag that was not previously bound.
use vstd::prelude::*;

verus! {

/// Identifies one logical variable. Two tags are the same variable exactly
/// when their `id`s are equal; a label (through [`Variable`]) is
/// informational only and plays no part in identity.
#[derive(Clone, Copy, Debug)]
pub struct VariableTag {
    pub id: u64,
}

/// A diagnostic name for a variable. The label carries no contract and does
/// not identify the variable; identity is the tag's `id` alone.
pub trait Variable {
    /// A human-readable name for diagnostics.
    fn label(&self) -> &'static str {
        "not implemented"
    }
}

impl Variable for () {
    fn label(&self) -> &'static str {
        "()"
    }
}

impl Variable for VariableTag {
}

/// The bindings a sequence of `(tag, value)` entries denotes: later entries
/// shadow earlier ones, so rebinding a tag overwrites its value.
pub open spec fn bindings_of<V>(entries: Seq<(u64, V)>) -> Map<u64, V>
    decreases entries.len(),
{
    if entries.len() == 0 {
        Map::empty()
    } else {
        bindings_of(entries.drop_last()).insert(entries.last().0, entries.last().1)
    }
}

/// An environment of bound variables. `insert` consumes the environment and
/// returns one whose known bindings have grown (or were overwritten); `get`
/// carries the static precondition that its tag is bound, so no read can
/// fail at runtime.
pub struct Variables<V> {
    entries: Vec<(u64, V)>,
}

impl<V> Variables<V> {
    /// The mapping from bound tag identities to their current values.
    pub closed spec fn bindings(self) -> Map<u64, V> {
        bindings_of(self.entries@)
    }

    /// An environment with no bound tags.
    pub fn empty() -> (r: Self)
        ensures
            r.bindings() == Map::<u64, V>::empty(),
    {
        Variables { entries: Vec::new() }
    }

    /// Binds `value` to `tag`, consuming the environment. A tag already
    /// bound is overwritten: the last write wins.
    pub fn insert(self, tag: VariableTag, value: V) -> (r: Self)
        ensures
            r.bindings() == self.bindings().insert(tag.id, value),
    {
        let ghost old_entries = self.entries@;
        let mut entries = self.entries;
        entries.push((tag.id, value));
        proof {
            assert(entries@.drop_last() =~= old_entries);
        }
        Variables { entries }
    }
}

impl<V: Copy> Variables<V> {
    /// Reads the value bound to `tag`. The precondition that `tag` is bound
    /// is discharged statically, so the read itself cannot fail.
    pub fn get(&self, tag: VariableTag) -> (r: V)
        requires
            self.bindings().dom().contains(tag.id),
        ensures
            r == self.bindings()[tag.id],
    {
        let mut i: usize = self.entries.len();
        proof {
            assert(self.entries@.subrange(0, i as int) =~= self.entries@);
        }
        loop
            invariant
                i <= self.entries.len(),
                bindings_of(self.entries@.subrange(0, i as int)).dom().contains(tag.id),
                bindings_of(self.entries@.subrange(0, i as int))[tag.id]
                    == self.bindings()[tag.id],
            decreases i,
        {
            proof {
                if i == 0 {
                    assert(self.entries@.subrange(0, 0) =~= Seq::<(u64, V)>::empty());
                }
            }
            i = i - 1;
            let entry = self.entries[i];
            proof {
                assert(self.entries@.subrange(0, i + 1 as int).drop_last() =~= self.entries@
                    .subrange(0, i as int));
                assert(self.entries@.subrange(0, i + 1 as int).last() == self.entries@[i as int]);
            }
            if entry.0 == tag.id {
                return entry.1;
            }
        }
    }
}

/// Law: binding then reading. For any bindings `b`, tag `t` and value `v`,
/// after binding `v` to `t` the tag is known bound and reading it yields `v`.
pub proof fn lemma_bind_then_read<V>(b: Map<u64, V>, t: u64, v: V)
    ensures
        b.insert(t, v).dom().contains(t),
        b.insert(t, v)[t] == v,
{
}

/// Law: rebinding overwrites. Binding `v1` then `v2` to the same tag leaves
/// `v2` bound: the last write wins.
pub proof fn lemma_rebind_overwrites<V>(b: Map<u64, V>, t: u64, v1: V, v2: V)
    ensures
        b.insert(t, v1).insert(t, v2).dom().contains(t),
        b.insert(t, v1).insert(t, v2)[t] == v2,
{
}

/// Law: binding order independence for distinct tags. Binding `a` to `ta`
/// and `b_val` to `tb` in either order yields bindings under which reading
/// `ta` gives `a` and reading `tb` gives `b_val`.
pub proof fn lemma_bind_order_independent<V>(b: Map<u64, V>, ta: u64, a: V, tb: u64, b_val: V)
    requires
        ta != tb,
    ensures
        b.insert(ta, a).insert(tb, b_val).dom().contains(ta),
        b.insert(ta, a).insert(tb, b_val).dom().contains(tb),
        b.insert(ta, a).insert(tb, b_val)[ta] == a,
        b.insert(ta, a).insert(tb, b_val)[tb] == b_val,
        b.insert(tb, b_val).insert(ta, a).dom().contains(ta),
        b.insert(tb, b_val).insert(ta, a).dom().contains(tb),
        b.insert(tb, b_val).insert(ta, a)[ta] == a,
        b.insert(tb, b_val).insert(ta, a)[tb] == b_val,
{
}

} // verus!
