//! The property pass: one depth-first walk that refreshes every node's
//! properties and resolves control flow for the frame.

use vstd::prelude::*;
use crate::conditional::{check_selection, selection_of, ConditionalInstance};
use crate::draw::{after_steps, draw_pass, HostState};
use crate::frame::FrameInstance;
use crate::geometry::{is_composition, is_percent_rule, Geometry};
use crate::message::{copy_chain, messages_view, NativeMessage};
use crate::pass::{evaluated, evaluates, failure_of, is_evaluator};
use crate::pass::{lemma_pass_list_error_sticks, lemma_pass_repeat_error_sticks};
use crate::pass::{pass_list, pass_node, pass_repeat};
use crate::plan::{draw_plan_of, steps_view, DrawStep, Scene};
use crate::registry::InstanceRegistry;
use crate::rendering::{Component, Rectangle, RenderNode, RenderNodeView, RenderTree};
use crate::repeat::{Repeat, RepeatFrame};
use crate::runtime::Runtime;
use crate::scope::StackFrameView;
use crate::value::{Coefficients, EngineError, TypedValue};

verus! {

/// No property of any registered node is bound to an expression.
pub open spec fn all_literal(nodes: Map<u64, RenderNodeView>) -> bool {
    forall|k: u64| #[trigger] nodes.contains_key(k) ==> nodes[k].shape().is_literal()
}

/// What every property pass keeps, whatever the expressions yield. It mints
/// nothing and registers nothing. A node that stays keeps its shape. A node
/// that leaves is marked for unmount, and no mark is taken back. A repeat is
/// as it was or is materialized from its list.
pub open spec fn pass_relates(before: InstanceRegistry, after: InstanceRegistry) -> bool {
    &&& after.next_id == before.next_id
    &&& before.marked().subset_of(after.marked())
    &&& forall|k: u64| #[trigger]
        after.nodes().contains_key(k) ==> {
            &&& before.nodes().contains_key(k)
            &&& after.nodes()[k].shape() == before.nodes()[k].shape()
            &&& after.nodes()[k] matches RenderNodeView::Repeat(r) ==> r.is_materialized()
                || after.nodes()[k] == before.nodes()[k]
        }
    &&& forall|k: u64| #[trigger]
        before.nodes().contains_key(k) && !after.nodes().contains_key(k)
            ==> after.marked().contains(k)
}

/// What a property pass leaves of the runtime: the same frames, clipping
/// stack and messages, after as many pops as pushes.
pub open spec fn runtime_restored(before: Runtime, after: Runtime) -> bool {
    &&& after.frames() == before.frames()
    &&& after.clipping_ids() == before.clipping_ids()
    &&& after.queued() == before.queued()
    &&& after.pushes() >= before.pushes()
    &&& after.pushes() - before.pushes() == after.pops() - before.pops()
}

proof fn lemma_pass_relates_transitive(a: InstanceRegistry, b: InstanceRegistry, c: InstanceRegistry)
    requires
        pass_relates(a, b),
        pass_relates(b, c),
    ensures
        pass_relates(a, c),
{
    assert forall|k: u64| #[trigger] c.nodes().contains_key(k) implies {
        &&& a.nodes().contains_key(k)
        &&& c.nodes()[k].shape() == a.nodes()[k].shape()
        &&& c.nodes()[k] matches RenderNodeView::Repeat(r) ==> r.is_materialized() || c.nodes()[k]
            == a.nodes()[k]
    } by {
    }
    assert forall|k: u64| #[trigger]
        a.nodes().contains_key(k) && !c.nodes().contains_key(k) implies c.marked().contains(k) by {
    }
}

proof fn lemma_pass_keeps_literal(a: InstanceRegistry, b: InstanceRegistry)
    requires
        pass_relates(a, b),
    ensures
        all_literal(a.nodes()) ==> all_literal(b.nodes()),
{
}

/// Asks the evaluator for a property's value, if the property is bound.
fn evaluate<E: Fn(u64, &Runtime) -> Option<TypedValue>>(
    evaluator: &E,
    vtable_id: Option<u64>,
    runtime: &Runtime,
) -> (value: Option<TypedValue>)
    requires
        is_evaluator(evaluator),
    ensures
        value == evaluated(evaluator, vtable_id, runtime.frames()),
{
    match vtable_id {
        Some(id) => {
            let value = evaluator(id, runtime);
            assert(evaluates(evaluator, id, runtime.frames(), value));
            value
        },
        None => None,
    }
}

/// The registry `after` and the outcome `r` are what the property pass over
/// the node `id` makes of `before` under the scopes `frames`.
pub open spec fn is_pass_over_node<E: Fn(u64, &Runtime) -> Option<TypedValue>>(
    evaluator: &E,
    before: InstanceRegistry,
    frames: Seq<StackFrameView>,
    id: u64,
    after: InstanceRegistry,
    r: Result<(), EngineError>,
) -> bool {
    let outcome = pass_node(evaluator, before.nodes(), before.marked(), frames, id);
    &&& after.nodes() == outcome.nodes
    &&& after.marked() == outcome.marked
    &&& failure_of(r) == outcome.failure
}

/// The registry `after` and the outcome `r` are what the property pass over
/// the nodes of `list` makes of `before` under the scopes `frames`.
pub open spec fn is_pass_over_list<E: Fn(u64, &Runtime) -> Option<TypedValue>>(
    evaluator: &E,
    before: InstanceRegistry,
    frames: Seq<StackFrameView>,
    bound: u64,
    list: Seq<u64>,
    after: InstanceRegistry,
    r: Result<(), EngineError>,
) -> bool {
    let outcome = pass_list(evaluator, before.nodes(), before.marked(), frames, bound, list);
    &&& after.nodes() == outcome.nodes
    &&& after.marked() == outcome.marked
    &&& failure_of(r) == outcome.failure
}

/// The node `id` of `whole` is being visited: it is registered, not marked,
/// and `rest` is `whole` without it.
spec fn is_taken(whole: InstanceRegistry, rest: InstanceRegistry, id: u64) -> bool {
    &&& whole.nodes().contains_key(id)
    &&& !whole.marked().contains(id)
    &&& rest.nodes() == whole.nodes().remove(id)
    &&& rest.marked() == whole.marked()
    &&& rest.next_id == whole.next_id
}

/// Runs the property pass over each node of `list` in order, stopping at the
/// first failure.
fn recurse_list<E: Fn(u64, &Runtime) -> Option<TypedValue>>(
    registry: &mut InstanceRegistry,
    bound: u64,
    list: &Vec<u64>,
    runtime: &mut Runtime,
    evaluator: &E,
) -> (r: Result<(), EngineError>)
    requires
        is_evaluator(evaluator),
    ensures
        is_pass_over_list(
            evaluator,
            *old(registry),
            old(runtime).frames(),
            bound,
            list@,
            *final(registry),
            r,
        ),
        old(registry).wf() ==> final(registry).wf(),
        pass_relates(*old(registry), *final(registry)),
        runtime_restored(*old(runtime), *final(runtime)),
        all_literal(old(registry).nodes()) ==> r is Ok,
    decreases bound, 0nat,
{
    let ghost registry0 = *registry;
    let ghost runtime0 = *runtime;
    let mut k: usize = 0;
    while k < list.len()
        invariant
            k <= list.len(),
            is_evaluator(evaluator),
            registry0 == *old(registry),
            runtime0 == *old(runtime),
            registry0.wf() ==> registry.wf(),
            pass_relates(registry0, *registry),
            runtime_restored(runtime0, *runtime),
            is_pass_over_list(
                evaluator,
                registry0,
                runtime0.frames(),
                bound,
                list@.take(k as int),
                *registry,
                Ok(()),
            ),
        decreases list.len() - k,
    {
        let child: u64 = list[k];
        proof {
            let longer = list@.take(k + 1);
            assert(longer.drop_last() =~= list@.take(k as int));
        }
        if child < bound {
            let r = recurse_compute_properties(registry, child, runtime, evaluator);
            if r.is_err() {
                proof {
                    lemma_pass_list_error_sticks(
                        evaluator,
                        registry0.nodes(),
                        registry0.marked(),
                        runtime0.frames(),
                        bound,
                        list@,
                        k + 1,
                    );
                }
                return r;
            }
        }
        k = k + 1;
    }
    assert(list@.take(k as int) =~= list@);
    Ok(())
}

/// Visits a component that was taken out of the registry.
fn visit_component<E: Fn(u64, &Runtime) -> Option<TypedValue>>(
    registry: &mut InstanceRegistry,
    id: u64,
    node: Component,
    runtime: &mut Runtime,
    evaluator: &E,
    Ghost(whole): Ghost<InstanceRegistry>,
) -> (r: Result<(), EngineError>)
    requires
        is_evaluator(evaluator),
        is_taken(whole, *old(registry), id),
        whole.nodes()[id] == RenderNodeView::Component(node@),
    ensures
        is_pass_over_node(evaluator, whole, old(runtime).frames(), id, *final(registry), r),
        whole.wf() ==> final(registry).wf(),
        pass_relates(whole, *final(registry)),
        runtime_restored(*old(runtime), *final(runtime)),
        all_literal(whole.nodes()) ==> r is Ok,
    decreases id, 1nat,
{
    let ghost runtime0 = *runtime;
    let mut node = node;
    runtime.push_stack_frame(copy_chain(&node.adoptees), node.properties.duplicate());
    node.eval_properties_in_place();
    let children: Vec<u64> = copy_chain(&node.template);
    registry.register(id, RenderNode::Component(node));
    let ghost registry1 = *registry;
    assert(registry1.nodes() =~= whole.nodes());
    let r = recurse_list(registry, id, &children, runtime, evaluator);
    runtime.pop_stack_frame();
    proof {
        lemma_pass_relates_transitive(whole, registry1, *registry);
        lemma_pass_keeps_literal(whole, registry1);
        assert(runtime.frames() =~= runtime0.frames());
    }
    r
}

/// Visits a rectangle that was taken out of the registry.
fn visit_rectangle<E: Fn(u64, &Runtime) -> Option<TypedValue>>(
    registry: &mut InstanceRegistry,
    id: u64,
    node: Rectangle,
    runtime: &Runtime,
    evaluator: &E,
    Ghost(whole): Ghost<InstanceRegistry>,
) -> (r: Result<(), EngineError>)
    requires
        is_evaluator(evaluator),
        is_taken(whole, *old(registry), id),
        whole.nodes()[id] == RenderNodeView::Rectangle(node@),
    ensures
        is_pass_over_node(evaluator, whole, runtime.frames(), id, *final(registry), r),
        whole.wf() ==> final(registry).wf(),
        pass_relates(whole, *final(registry)),
        all_literal(whole.nodes()) ==> r is Ok,
{
    let mut node = node;
    let width = evaluate(evaluator, node.size.0._get_vtable_id(), runtime);
    let height = evaluate(evaluator, node.size.1._get_vtable_id(), runtime);
    let fill = evaluate(evaluator, node.fill._get_vtable_id(), runtime);
    let r = node.check_properties(width, height, fill);
    if r.is_ok() {
        node.eval_properties_in_place(width, height, fill);
    }
    registry.register(id, RenderNode::Rectangle(node));
    proof {
        if r is Err {
            assert(registry.nodes() =~= whole.nodes());
        } else {
            assert(registry.nodes() =~= whole.nodes().insert(id, RenderNodeView::Rectangle(node@)));
        }
    }
    r
}

/// Visits a repeat that was taken out of the registry.
fn visit_repeat<E: Fn(u64, &Runtime) -> Option<TypedValue>>(
    registry: &mut InstanceRegistry,
    id: u64,
    node: Repeat,
    runtime: &mut Runtime,
    evaluator: &E,
    Ghost(whole): Ghost<InstanceRegistry>,
) -> (r: Result<(), EngineError>)
    requires
        is_evaluator(evaluator),
        is_taken(whole, *old(registry), id),
        whole.nodes()[id] == RenderNodeView::Repeat(node@),
    ensures
        is_pass_over_node(evaluator, whole, old(runtime).frames(), id, *final(registry), r),
        whole.wf() ==> final(registry).wf(),
        pass_relates(whole, *final(registry)),
        runtime_restored(*old(runtime), *final(runtime)),
        all_literal(whole.nodes()) ==> r is Ok,
    decreases id, 1nat,
{
    let ghost runtime0 = *runtime;
    let ghost before = node@;
    let mut node = node;
    node.eval_properties_in_place();
    let frames: Vec<RepeatFrame> = copy_frames(&node.virtual_children);
    let template: Vec<u64> = copy_chain(&node.children);
    registry.register(id, RenderNode::Repeat(node));
    let ghost registry1 = *registry;
    proof {
        assert(registry1.nodes() =~= whole.nodes().insert(
            id,
            RenderNodeView::Repeat(before.rematerialized()),
        ));
    }
    let mut j: usize = 0;
    while j < frames.len()
        invariant
            j <= frames.len(),
            is_evaluator(evaluator),
            runtime0 == *old(runtime),
            whole.wf() ==> registry.wf(),
            pass_node(evaluator, whole.nodes(), whole.marked(), runtime0.frames(), id)
                == pass_repeat(
                evaluator,
                registry1.nodes(),
                registry1.marked(),
                runtime0.frames(),
                id,
                template@,
                frames@,
            ),
            pass_relates(whole, registry1),
            pass_relates(registry1, *registry),
            runtime_restored(runtime0, *runtime),
            ({
                let outcome = pass_repeat(
                    evaluator,
                    registry1.nodes(),
                    registry1.marked(),
                    runtime0.frames(),
                    id,
                    template@,
                    frames@.take(j as int),
                );
                &&& registry.nodes() == outcome.nodes
                &&& registry.marked() == outcome.marked
                &&& outcome.failure is None
            }),
        decreases frames.len() - j,
    {
        let ghost registry2 = *registry;
        let ghost runtime2 = *runtime;
        proof {
            let longer = frames@.take(j + 1);
            assert(longer.drop_last() =~= frames@.take(j as int));
        }
        runtime.push_stack_frame(copy_chain(&template), frames[j].scope());
        let r = recurse_list(registry, id, &template, runtime, evaluator);
        runtime.pop_stack_frame();
        proof {
            lemma_pass_relates_transitive(registry1, registry2, *registry);
            lemma_pass_keeps_literal(whole, registry1);
            lemma_pass_keeps_literal(registry1, registry2);
            assert(runtime.frames() =~= runtime2.frames());
        }
        if r.is_err() {
            proof {
                lemma_pass_repeat_error_sticks(
                    evaluator,
                    registry1.nodes(),
                    registry1.marked(),
                    runtime0.frames(),
                    id,
                    template@,
                    frames@,
                    j + 1,
                );
                lemma_pass_relates_transitive(whole, registry1, *registry);
            }
            return r;
        }
        j = j + 1;
    }
    proof {
        assert(frames@.take(j as int) =~= frames@);
        lemma_pass_relates_transitive(whole, registry1, *registry);
    }
    Ok(())
}

/// Visits a conditional that was taken out of the registry.
fn visit_conditional<E: Fn(u64, &Runtime) -> Option<TypedValue>>(
    registry: &mut InstanceRegistry,
    id: u64,
    node: ConditionalInstance,
    runtime: &mut Runtime,
    evaluator: &E,
    Ghost(whole): Ghost<InstanceRegistry>,
) -> (r: Result<(), EngineError>)
    requires
        is_evaluator(evaluator),
        is_taken(whole, *old(registry), id),
        whole.nodes()[id] == RenderNodeView::Conditional(node@),
    ensures
        is_pass_over_node(evaluator, whole, old(runtime).frames(), id, *final(registry), r),
        whole.wf() ==> final(registry).wf(),
        pass_relates(whole, *final(registry)),
        runtime_restored(*old(runtime), *final(runtime)),
        all_literal(whole.nodes()) ==> r is Ok,
    decreases id, 1nat,
{
    let mut node = node;
    let ghost before = node@;
    let evaluated = evaluate(evaluator, node.boolean_expression._get_vtable_id(), runtime);
    match check_selection(evaluated) {
        Err(e) => {
            registry.register(id, RenderNode::Conditional(node));
            assert(registry.nodes() =~= whole.nodes());
            return Err(e);
        },
        Ok(_) => {},
    }
    node.compute_properties(evaluated, registry);
    let children: Vec<u64> = copy_chain(node.get_rendering_children());
    registry.register(id, RenderNode::Conditional(node));
    let ghost registry1 = *registry;
    proof {
        let selected = selection_of(evaluated)->Ok_0;
        let gone = before.unmounted_by(whole.nodes().remove(id), selected);
        assert(registry1.nodes() =~= whole.nodes().remove_keys(gone).insert(
            id,
            RenderNodeView::Conditional(before.stepped(selected)),
        ));
    }
    let r = recurse_list(registry, id, &children, runtime, evaluator);
    proof {
        lemma_pass_relates_transitive(whole, registry1, *registry);
        lemma_pass_keeps_literal(whole, registry1);
    }
    r
}

/// Visits a frame that was taken out of the registry.
fn visit_frame<E: Fn(u64, &Runtime) -> Option<TypedValue>>(
    registry: &mut InstanceRegistry,
    id: u64,
    node: FrameInstance,
    runtime: &mut Runtime,
    evaluator: &E,
    Ghost(whole): Ghost<InstanceRegistry>,
) -> (r: Result<(), EngineError>)
    requires
        is_evaluator(evaluator),
        is_taken(whole, *old(registry), id),
        whole.nodes()[id] == RenderNodeView::Frame(node@),
    ensures
        is_pass_over_node(evaluator, whole, old(runtime).frames(), id, *final(registry), r),
        whole.wf() ==> final(registry).wf(),
        pass_relates(whole, *final(registry)),
        runtime_restored(*old(runtime), *final(runtime)),
        all_literal(whole.nodes()) ==> r is Ok,
    decreases id, 1nat,
{
    let mut node = node;
    let width = evaluate(evaluator, node.size.0._get_vtable_id(), runtime);
    let height = evaluate(evaluator, node.size.1._get_vtable_id(), runtime);
    let transform = evaluate(evaluator, node.transform._get_vtable_id(), runtime);
    match node.check_properties(width, height, transform) {
        Err(e) => {
            registry.register(id, RenderNode::Frame(node));
            assert(registry.nodes() =~= whole.nodes());
            return Err(e);
        },
        Ok(_) => {},
    }
    node.compute_properties(width, height, transform);
    let children: Vec<u64> = copy_chain(&node.children);
    let ghost after = node@;
    registry.register(id, RenderNode::Frame(node));
    assert(registry.nodes() =~= whole.nodes().insert(id, RenderNodeView::Frame(after)));
    let r = recurse_list(registry, id, &children, runtime, evaluator);
    r
}

/// Runs the property pass over the node `id` and what it draws beneath it:
/// the registry ends as [`pass_node`] says, with the same outcome. Every
/// frame that the pass pushes it pops again, also when it fails: the stack
/// ends as it began, after as many pops as pushes. The pass fails where an
/// expression yields a value of another type than its property holds; the
/// node at which that happens is left as it was.
///
/// A child is visited only where its id is below its parent's, as it is in
/// every well-formed registry ([`InstanceRegistry::wf`]), where children are
/// minted before their parents; any other child is passed over with all
/// beneath it.
pub fn recurse_compute_properties<E: Fn(u64, &Runtime) -> Option<TypedValue>>(
    registry: &mut InstanceRegistry,
    id: u64,
    runtime: &mut Runtime,
    evaluator: &E,
) -> (r: Result<(), EngineError>)
    requires
        is_evaluator(evaluator),
    ensures
        is_pass_over_node(
            evaluator,
            *old(registry),
            old(runtime).frames(),
            id,
            *final(registry),
            r,
        ),
        old(registry).wf() ==> final(registry).wf(),
        pass_relates(*old(registry), *final(registry)),
        runtime_restored(*old(runtime), *final(runtime)),
        all_literal(old(registry).nodes()) ==> r is Ok,
    decreases id, 2nat,
{
    let ghost whole = *registry;
    if registry.is_marked_for_unmount(id) {
        return Ok(());
    }
    let taken: Option<RenderNode> = registry.take(id);
    match taken {
        None => {
            assert(registry.nodes() =~= whole.nodes());
            Ok(())
        },
        Some(RenderNode::Component(node)) => visit_component(
            registry,
            id,
            node,
            runtime,
            evaluator,
            Ghost(whole),
        ),
        Some(RenderNode::Rectangle(node)) => visit_rectangle(
            registry,
            id,
            node,
            runtime,
            evaluator,
            Ghost(whole),
        ),
        Some(RenderNode::Repeat(node)) => visit_repeat(
            registry,
            id,
            node,
            runtime,
            evaluator,
            Ghost(whole),
        ),
        Some(RenderNode::Conditional(node)) => visit_conditional(
            registry,
            id,
            node,
            runtime,
            evaluator,
            Ghost(whole),
        ),
        Some(RenderNode::Frame(node)) => visit_frame(
            registry,
            id,
            node,
            runtime,
            evaluator,
            Ghost(whole),
        ),
    }
}

/// A copy of a list of materialized children.
fn copy_frames(frames: &Vec<RepeatFrame>) -> (c: Vec<RepeatFrame>)
    ensures
        c@ == frames@,
{
    let mut c: Vec<RepeatFrame> = Vec::new();
    let mut i: usize = 0;
    while i < frames.len()
        invariant
            i <= frames.len(),
            c@ == frames@.take(i as int),
        decreases frames.len() - i,
    {
        c.push(frames[i]);
        i = i + 1;
    }
    c
}

/// One property pass over `tree`, from its root: a depth-first walk in
/// pre-order that leaves the registry as [`pass_node`] says of the root.
/// The stack of frames ends as it began, after as many pops as pushes; a
/// pass that begins on an empty stack ends on an empty stack. A tree
/// without expressions cannot fail.
///
/// A child is visited only where its id is below its parent's, as it is in
/// every well-formed registry ([`InstanceRegistry::wf`]), where children are
/// minted before their parents; any other child is passed over with all
/// beneath it.
pub fn compute_properties<E: Fn(u64, &Runtime) -> Option<TypedValue>>(
    registry: &mut InstanceRegistry,
    tree: &RenderTree,
    runtime: &mut Runtime,
    evaluator: &E,
) -> (r: Result<(), EngineError>)
    requires
        is_evaluator(evaluator),
    ensures
        is_pass_over_node(
            evaluator,
            *old(registry),
            old(runtime).frames(),
            tree.root,
            *final(registry),
            r,
        ),
        old(registry).wf() ==> final(registry).wf(),
        pass_relates(*old(registry), *final(registry)),
        runtime_restored(*old(runtime), *final(runtime)),
        final(runtime).pushes() - old(runtime).pushes() == final(runtime).pops() - old(
            runtime,
        ).pops(),
        old(runtime).frames().len() == 0 ==> final(runtime).frames().len() == 0,
        all_literal(old(registry).nodes()) ==> r is Ok,
{
    recurse_compute_properties(registry, tree.root, runtime, evaluator)
}

/// What one frame hands to the host: the steps to paint, in order, and the
/// messages that bring its native elements up to date.
pub struct FrameOutput {
    pub steps: Vec<DrawStep>,
    pub messages: Vec<NativeMessage>,
}

/// One frame over `tree`: the property pass, then the draw pass within
/// `viewport`, then the hand-over of every waiting message. Both passes run
/// to their end before anything is handed over. A property pass that fails
/// ends the frame: nothing is drawn and no message is handed over.
///
/// In both passes a child is visited only where its id is below its
/// parent's, as it is in every well-formed registry
/// ([`InstanceRegistry::wf`]), where children are minted before their
/// parents; any other child is passed over with all beneath it.
pub fn tick<
    E: Fn(u64, &Runtime) -> Option<TypedValue>,
    P: Fn(u64, u64) -> u64,
    C: Fn(Coefficients, Coefficients) -> Coefficients,
>(
    registry: &mut InstanceRegistry,
    tree: &RenderTree,
    runtime: &mut Runtime,
    evaluator: &E,
    viewport: &Geometry,
    percent_of: &P,
    compose: &C,
) -> (r: Result<FrameOutput, EngineError>)
    requires
        is_evaluator(evaluator),
        is_percent_rule(percent_of),
        is_composition(compose),
    ensures
        ({
            let pass = pass_node(
                evaluator,
                old(registry).nodes(),
                old(registry).marked(),
                old(runtime).frames(),
                tree.root,
            );
            let plan = draw_plan_of(
                Scene { nodes: pass.nodes, marked: pass.marked, percent_of, compose },
                tree.root,
                *viewport,
            );
            let drawn = after_steps(
                HostState {
                    nodes: pass.nodes,
                    clipping_ids: old(runtime).clipping_ids(),
                    queued: old(runtime).queued(),
                },
                plan,
            );
            match r {
                Ok(output) => {
                    &&& pass.failure is None
                    &&& steps_view(output.steps@) == plan
                    &&& messages_view(output.messages@) == drawn.queued
                    &&& final(registry).nodes() == drawn.nodes
                    &&& final(runtime).queued().len() == 0
                },
                Err(e) => {
                    &&& pass.failure == Some(e)
                    &&& final(registry).nodes() == pass.nodes
                    &&& final(runtime).queued() == old(runtime).queued()
                },
            }
        }),
        final(registry).marked() == pass_node(
            evaluator,
            old(registry).nodes(),
            old(registry).marked(),
            old(runtime).frames(),
            tree.root,
        ).marked,
        final(registry).next_id == old(registry).next_id,
        old(registry).wf() ==> final(registry).wf(),
        final(runtime).frames() == old(runtime).frames(),
        final(runtime).clipping_ids() == old(runtime).clipping_ids(),
        final(runtime).pushes() - old(runtime).pushes() == final(runtime).pops() - old(
            runtime,
        ).pops(),
{
    match compute_properties(registry, tree, runtime, evaluator) {
        Err(e) => Err(e),
        Ok(_) => {
            let steps: Vec<DrawStep> = draw_pass(
                registry,
                tree,
                runtime,
                viewport,
                percent_of,
                compose,
            );
            let messages: Vec<NativeMessage> = runtime.take_native_message_queue();
            Ok(FrameOutput { steps, messages })
        },
    }
}

} // verus!
