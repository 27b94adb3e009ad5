//! Named bindings that a traversal exposes to the expressions beneath it.

use vstd::prelude::*;
use crate::value::TypedValue;

verus! {

/// One name bound to one value.
pub struct Binding {
    pub key: String,
    pub value: TypedValue,
}

/// The bindings of one stack frame. A name bound twice answers with the later
/// binding.
pub struct Scope {
    pub entries: Vec<Binding>,
}

/// The mapping that a list of bindings stands for: later bindings of a name
/// replace earlier ones.
pub open spec fn bindings_map(entries: Seq<Binding>) -> Map<Seq<char>, TypedValue>
    decreases entries.len(),
{
    if entries.len() == 0 {
        Map::empty()
    } else {
        bindings_map(entries.drop_last()).insert(entries.last().key@, entries.last().value)
    }
}

/// A name that no binding from position `from` on mentions is decided by the
/// bindings before `from`.
proof fn lemma_bindings_map_tail_irrelevant(entries: Seq<Binding>, from: int, key: Seq<char>)
    requires
        0 <= from <= entries.len(),
        forall|j: int| from <= j < entries.len() ==> entries[j].key@ != key,
    ensures
        bindings_map(entries).contains_key(key) == bindings_map(entries.take(from)).contains_key(
            key,
        ),
        bindings_map(entries).contains_key(key) ==> bindings_map(entries)[key] == bindings_map(
            entries.take(from),
        )[key],
    decreases entries.len(),
{
    if from == entries.len() {
        assert(entries.take(from) =~= entries);
    } else {
        let shorter = entries.drop_last();
        lemma_bindings_map_tail_irrelevant(shorter, from, key);
        assert(shorter.take(from) =~= entries.take(from));
    }
}

impl View for Scope {
    type V = Map<Seq<char>, TypedValue>;

    open spec fn view(&self) -> Map<Seq<char>, TypedValue> {
        bindings_map(self.entries@)
    }
}

impl Scope {
    /// A scope that binds nothing.
    pub fn new() -> (s: Scope)
        ensures
            s@ == Map::<Seq<char>, TypedValue>::empty(),
    {
        Scope { entries: Vec::new() }
    }

    /// Binds `key` to `value`, replacing what `key` was bound to.
    pub fn bind(&mut self, key: &str, value: TypedValue)
        ensures
            final(self)@ == old(self)@.insert(key@, value),
    {
        let owned: String = key.to_owned();
        self.entries.push(Binding { key: owned, value });
        assert(self.entries@.drop_last() =~= old(self).entries@);
    }

    /// The value bound to `key`, or `None` where the scope does not bind it.
    pub fn get(&self, key: &str) -> (v: Option<TypedValue>)
        ensures
            v == (if self@.contains_key(key@) {
                Some(self@[key@])
            } else {
                None
            }),
    {
        let wanted: String = key.to_owned();
        let mut i: usize = self.entries.len();
        while i > 0
            invariant
                i <= self.entries.len(),
                wanted@ == key@,
                forall|j: int| i <= j < self.entries.len() ==> self.entries[j].key@ != key@,
            decreases i,
        {
            i = i - 1;
            if self.entries[i].key == wanted {
                proof {
                    lemma_bindings_map_tail_irrelevant(self.entries@, i + 1, key@);
                }
                return Some(self.entries[i].value);
            }
        }
        proof {
            lemma_bindings_map_tail_irrelevant(self.entries@, 0, key@);
        }
        None
    }

    /// A copy that binds the same names to the same values.
    pub fn duplicate(&self) -> (s: Scope)
        ensures
            s@ == self@,
    {
        let mut entries: Vec<Binding> = Vec::new();
        let mut i: usize = 0;
        while i < self.entries.len()
            invariant
                i <= self.entries.len(),
                entries.len() == i,
                bindings_map(entries@) == bindings_map(self.entries@.take(i as int)),
            decreases self.entries.len() - i,
        {
            let ghost before = entries@;
            let key: String = self.entries[i].key.clone();
            let value: TypedValue = self.entries[i].value;
            entries.push(Binding { key, value });
            proof {
                assert(entries@.drop_last() =~= before);
                assert(self.entries@.take(i + 1).drop_last() =~= self.entries@.take(i as int));
            }
            i = i + 1;
        }
        proof {
            assert(self.entries@.take(i as int) =~= self.entries@);
        }
        Scope { entries }
    }
}

/// A scope together with the nodes that a placeholder beneath it may adopt.
pub struct StackFrame {
    pub adoptees: Vec<u64>,
    pub scope: Scope,
}

/// What a [`StackFrame`] holds.
pub struct StackFrameView {
    pub adoptees: Seq<u64>,
    pub scope: Map<Seq<char>, TypedValue>,
}

impl View for StackFrame {
    type V = StackFrameView;

    open spec fn view(&self) -> StackFrameView {
        StackFrameView { adoptees: self.adoptees@, scope: self.scope@ }
    }
}

impl StackFrame {
    pub fn new(adoptees: Vec<u64>, scope: Scope) -> (f: StackFrame)
        ensures
            f@ == (StackFrameView { adoptees: adoptees@, scope: scope@ }),
    {
        StackFrame { adoptees, scope }
    }

    pub fn get_adoptees(&self) -> (a: &Vec<u64>)
        ensures
            a@ == self@.adoptees,
    {
        &self.adoptees
    }

    pub fn get_scope(&self) -> (s: &Scope)
        ensures
            s@ == self@.scope,
    {
        &self.scope
    }
}

} // verus!
