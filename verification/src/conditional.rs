//! Conditional: draws one of two lists of children, as a boolean says.

use vstd::prelude::*;
use crate::registry::{beneath_branch, InstanceRegistry};
use crate::rendering::{all_below, InstantiationArgs, Layer, NodeKind, NodeShape};
use crate::rendering::{RenderNode, RenderNodeView};
use crate::value::{Coefficients, EngineError, Property, Size, TypeTag, TypedValue};

verus! {

/// A control-flow node that draws `true_branch_children` while its boolean
/// holds and `false_branch_children` while it does not. The boolean that an
/// evaluation yields is buffered in `next_frame_expression` and displayed
/// from the next property pass on, so that one frame sees one selection.
pub struct ConditionalInstance {
    pub instance_id: u64,
    pub boolean_expression: Property<bool>,
    pub true_branch_children: Vec<u64>,
    pub false_branch_children: Vec<u64>,
    pub next_frame_expression: Option<bool>,
    pub transform: Property<Coefficients>,
}

/// What a [`ConditionalInstance`] holds.
pub struct ConditionalInstanceView {
    pub instance_id: u64,
    pub boolean_expression: Property<bool>,
    pub true_branch_children: Seq<u64>,
    pub false_branch_children: Seq<u64>,
    pub next_frame_expression: Option<bool>,
    pub transform: Property<Coefficients>,
}

impl View for ConditionalInstance {
    type V = ConditionalInstanceView;

    open spec fn view(&self) -> ConditionalInstanceView {
        ConditionalInstanceView {
            instance_id: self.instance_id,
            boolean_expression: self.boolean_expression,
            true_branch_children: self.true_branch_children@,
            false_branch_children: self.false_branch_children@,
            next_frame_expression: self.next_frame_expression,
            transform: self.transform,
        }
    }
}

/// The selection that an evaluation yielded: `Ok(None)` where the boolean
/// was not evaluated, and a mismatch where the value is no boolean.
pub open spec fn selection_of(evaluated: Option<TypedValue>) -> Result<Option<bool>, EngineError> {
    match evaluated {
        None => Ok(None),
        Some(TypedValue::Bool(selected)) => Ok(Some(selected)),
        Some(other) => Err(
            EngineError::TypeMismatch { expected: TypeTag::Bool, found: other.spec_tag() },
        ),
    }
}

/// Checks that what an expression yielded for a conditional is a boolean, or
/// nothing: the selection, or the mismatch of types.
pub fn check_selection(evaluated: Option<TypedValue>) -> (r: Result<Option<bool>, EngineError>)
    ensures
        r == selection_of(evaluated),
{
    match evaluated {
        None => Ok(None),
        Some(TypedValue::Bool(selected)) => Ok(Some(selected)),
        Some(other) => Err(EngineError::TypeMismatch { expected: TypeTag::Bool, found: other.tag() }),
    }
}

impl ConditionalInstanceView {
    pub open spec fn shape(self) -> NodeShape {
        NodeShape {
            kind: NodeKind::Conditional,
            instance_id: self.instance_id,
            links: seq![self.true_branch_children, self.false_branch_children],
            vtable_ids: seq![self.boolean_expression.vtable_id, self.transform.vtable_id],
        }
    }

    /// The children of the branch on display.
    pub open spec fn rendering_children(self) -> Seq<u64> {
        if self.boolean_expression.value {
            self.true_branch_children
        } else {
            self.false_branch_children
        }
    }

    /// The selection that a property pass puts on display: the buffered one
    /// where there is one, else the one already displayed.
    pub open spec fn selection_due(self) -> bool {
        match self.next_frame_expression {
            Some(b) => b,
            None => self.boolean_expression.value,
        }
    }

    /// The children that lose their place when the selection put on display
    /// is followed by `selected`: those of the branch on display, if
    /// `selected` is the other branch.
    pub open spec fn deselected(self, selected: bool) -> Seq<u64> {
        if self.selection_due() == selected {
            Seq::empty()
        } else if self.selection_due() {
            self.true_branch_children
        } else {
            self.false_branch_children
        }
    }

    /// The ids that a property pass unmounts from `nodes` when the boolean
    /// evaluated to `selected` (`None`: it was not evaluated): all instances
    /// beneath the deselected branch.
    pub open spec fn unmounted_by(
        self,
        nodes: Map<u64, RenderNodeView>,
        selected: Option<bool>,
    ) -> Set<u64> {
        match selected {
            Some(b) => beneath_branch(nodes, self.deselected(b)),
            None => Set::empty(),
        }
    }

    /// The node after a property pass in which the boolean evaluated to
    /// `selected` (`None`: it was not evaluated): the selection due is on
    /// display and `selected` is buffered.
    pub open spec fn stepped(self, selected: Option<bool>) -> ConditionalInstanceView {
        ConditionalInstanceView {
            boolean_expression: Property { value: self.selection_due(), ..self.boolean_expression },
            next_frame_expression: selected,
            ..self
        }
    }
}

impl ConditionalInstance {
    pub fn get_instance_id(&self) -> (id: u64)
        ensures
            id == self@.instance_id,
    {
        self.instance_id
    }

    /// Mints an id, builds the node from `args` and registers it. The
    /// children of `args` become the true branch; the false branch is empty.
    /// The boolean expression must be given, and the id to be minted must be
    /// free, as it is in a well-formed registry. The registry stays well
    /// formed if the children were minted by it.
    pub fn instantiate(args: InstantiationArgs, registry: &mut InstanceRegistry) -> (id: u64)
        requires
            old(registry).next_id < u64::MAX,
            !old(registry).nodes().contains_key(old(registry).next_id),
            args.conditional_boolean_expression is Some,
        ensures
            id == old(registry).next_id,
            final(registry).next_id == id + 1,
            final(registry).marked() == old(registry).marked(),
            old(registry).wf() && (args.children matches Some(c) ==> all_below(
                c@,
                old(registry).next_id,
            )) ==> final(registry).wf(),
            final(registry).nodes() == old(registry).nodes().insert(
                id,
                RenderNodeView::Conditional(
                    ConditionalInstanceView {
                        instance_id: id,
                        boolean_expression: args.conditional_boolean_expression->0,
                        true_branch_children: match args.children {
                            Some(c) => c@,
                            None => Seq::empty(),
                        },
                        false_branch_children: Seq::empty(),
                        next_frame_expression: None,
                        transform: args.transform,
                    },
                ),
            ),
    {
        let instance_id: u64 = registry.mint_id();
        let true_branch_children: Vec<u64> = match args.children {
            None => Vec::new(),
            Some(children) => children,
        };
        let boolean_expression: Property<bool> = match args.conditional_boolean_expression {
            Some(expression) => expression,
            None => Property::literal(false),
        };
        let node = ConditionalInstance {
            instance_id,
            boolean_expression,
            true_branch_children,
            false_branch_children: Vec::new(),
            next_frame_expression: None,
            transform: args.transform,
        };
        registry.register(instance_id, RenderNode::Conditional(node));
        instance_id
    }

    /// One property pass over this node. The buffered selection goes on
    /// display. Then, if the boolean was evaluated this frame, the outcome is
    /// buffered for the next pass, and if it deselects the branch on display,
    /// every instance beneath that branch is deregistered and marked for
    /// unmount: its members and all that they hold, however deep.
    /// `evaluated` is what the expression yielded; `None` stands for no
    /// evaluation. It must be a boolean: see [`check_selection`].
    pub fn compute_properties(
        &mut self,
        evaluated: Option<TypedValue>,
        registry: &mut InstanceRegistry,
    )
        requires
            selection_of(evaluated) is Ok,
        ensures
            final(self)@ == old(self)@.stepped(selection_of(evaluated)->Ok_0),
            final(registry).nodes() == old(registry).nodes().remove_keys(
                old(self)@.unmounted_by(old(registry).nodes(), selection_of(evaluated)->Ok_0),
            ),
            final(registry).marked() == old(registry).marked().union(
                old(self)@.unmounted_by(old(registry).nodes(), selection_of(evaluated)->Ok_0),
            ),
            final(registry).next_id == old(registry).next_id,
            old(registry).wf() ==> final(registry).wf(),
    {
        let shown: bool = match self.next_frame_expression {
            Some(buffered) => buffered,
            None => *self.boolean_expression.get(),
        };
        self.boolean_expression.set(shown);
        match evaluated {
            Some(TypedValue::Bool(selected)) => {
                if shown && !selected {
                    registry.unmount_beneath(&self.true_branch_children);
                } else if !shown && selected {
                    registry.unmount_beneath(&self.false_branch_children);
                } else {
                    assert(registry.nodes() =~= old(registry).nodes().remove_keys(
                        Set::<u64>::empty(),
                    ));
                    assert(registry.marked() =~= old(registry).marked().union(Set::<u64>::empty()));
                }
                self.next_frame_expression = Some(selected);
            },
            _ => {
                assert(registry.nodes() =~= old(registry).nodes().remove_keys(Set::<u64>::empty()));
                assert(registry.marked() =~= old(registry).marked().union(Set::<u64>::empty()));
                self.next_frame_expression = None;
            },
        }
    }

    pub fn should_flatten(&self) -> (r: bool)
        ensures
            r,
    {
        true
    }

    /// The children of the branch on display.
    pub fn get_rendering_children(&self) -> (children: &Vec<u64>)
        ensures
            children@ == self@.rendering_children(),
    {
        if *self.boolean_expression.get() {
            &self.true_branch_children
        } else {
            &self.false_branch_children
        }
    }

    /// A conditional has no size of its own.
    pub fn get_size(&self) -> (size: Option<(Size<u64>, Size<u64>)>)
        ensures
            size is None,
    {
        None
    }

    pub fn get_transform(&self) -> (t: Property<Coefficients>)
        ensures
            t == self@.transform,
    {
        self.transform
    }

    pub fn get_layer_type(&self) -> (layer: Layer)
        ensures
            layer == Layer::DontCare,
    {
        Layer::DontCare
    }
}

} // verus!
