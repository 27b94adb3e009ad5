//! Repeat: draws its template once for each element of a list.

use vstd::prelude::*;
use crate::rendering::{NodeKind, NodeShape};
use crate::scope::Scope;
use crate::value::{Coefficients, Property, TypedValue};

verus! {

/// One materialized child of a [`Repeat`]: the element it stands for and the
/// element's position in the list.
#[derive(Copy, Clone, Debug)]
pub struct RepeatFrame {
    pub i: usize,
    pub datum: TypedValue,
}

/// A control-flow node that draws `children`, its template, once per element
/// of `list`. The materialized children are rebuilt on every property pass.
pub struct Repeat {
    pub instance_id: u64,
    pub children: Vec<u64>,
    pub list: Vec<TypedValue>,
    pub transform: Property<Coefficients>,
    pub virtual_children: Vec<RepeatFrame>,
}

/// What a [`Repeat`] holds.
pub struct RepeatView {
    pub instance_id: u64,
    pub children: Seq<u64>,
    pub list: Seq<TypedValue>,
    pub transform: Property<Coefficients>,
    pub virtual_children: Seq<RepeatFrame>,
}

/// The children that a list materializes to: one per element, in list order,
/// each holding its position and its element.
pub open spec fn materialized(list: Seq<TypedValue>) -> Seq<RepeatFrame> {
    Seq::new(list.len(), |i: int| RepeatFrame { i: i as usize, datum: list[i] })
}

/// The bindings that a materialized child exposes to its template.
pub open spec fn repeat_bindings(frame: RepeatFrame) -> Map<Seq<char>, TypedValue> {
    Map::<Seq<char>, TypedValue>::empty().insert("index"@, TypedValue::Index(frame.i)).insert(
        "datum"@,
        frame.datum,
    )
}

impl RepeatFrame {
    /// The scope that exposes this child's position as `index` and its
    /// element as `datum`.
    pub fn scope(&self) -> (s: Scope)
        ensures
            s@ == repeat_bindings(*self),
    {
        let mut s: Scope = Scope::new();
        s.bind("index", TypedValue::Index(self.i));
        s.bind("datum", self.datum);
        s
    }
}

impl View for Repeat {
    type V = RepeatView;

    open spec fn view(&self) -> RepeatView {
        RepeatView {
            instance_id: self.instance_id,
            children: self.children@,
            list: self.list@,
            transform: self.transform,
            virtual_children: self.virtual_children@,
        }
    }
}

impl RepeatView {
    pub open spec fn shape(self) -> NodeShape {
        NodeShape {
            kind: NodeKind::Repeat,
            instance_id: self.instance_id,
            links: seq![self.children],
            vtable_ids: seq![self.transform.vtable_id],
        }
    }

    /// The materialized children are those of the list as it stands.
    pub open spec fn is_materialized(self) -> bool {
        self.virtual_children == materialized(self.list)
    }

    /// The repeat after a property pass: with one materialized child per
    /// element of its list.
    pub open spec fn rematerialized(self) -> RepeatView {
        RepeatView { virtual_children: materialized(self.list), ..self }
    }
}

impl Repeat {
    /// A repeat of `children` over `list`, with nothing materialized yet.
    pub fn new(
        list: Vec<TypedValue>,
        children: Vec<u64>,
        instance_id: u64,
        transform: Property<Coefficients>,
    ) -> (r: Repeat)
        ensures
            r@ == (RepeatView {
                instance_id,
                children: children@,
                list: list@,
                transform,
                virtual_children: Seq::empty(),
            }),
    {
        Repeat { list, children, instance_id, transform, virtual_children: Vec::new() }
    }

    /// Discards the materialized children and materializes one per element
    /// of the list, in list order: as many children as the list has
    /// elements, the child at each position holding that position and the
    /// element found there.
    pub fn eval_properties_in_place(&mut self)
        ensures
            final(self)@ == old(self)@.rematerialized(),
            final(self)@.virtual_children.len() == old(self)@.list.len(),
            forall|i: int|
                0 <= i < old(self)@.list.len() ==> (#[trigger] final(self)@.virtual_children[i])
                    == (RepeatFrame { i: i as usize, datum: old(self)@.list[i] }),
    {
        let mut fresh: Vec<RepeatFrame> = Vec::new();
        let mut i: usize = 0;
        while i < self.list.len()
            invariant
                i <= self.list.len(),
                fresh@.len() == i,
                forall|j: int|
                    0 <= j < i ==> fresh@[j] == (RepeatFrame { i: j as usize, datum: self.list@[j] }),
            decreases self.list.len() - i,
        {
            fresh.push(RepeatFrame { i, datum: self.list[i] });
            i = i + 1;
        }
        assert(fresh@ =~= materialized(self.list@));
        self.virtual_children = fresh;
    }

    pub fn should_flatten(&self) -> (r: bool)
        ensures
            r,
    {
        true
    }

    /// The materialized children, in list order.
    pub fn get_children(&self) -> (c: &Vec<RepeatFrame>)
        ensures
            c@ == self@.virtual_children,
    {
        &self.virtual_children
    }
}

} // verus!
