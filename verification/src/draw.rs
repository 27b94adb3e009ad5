//! The draw pass as the host sees it: entering and leaving the nodes of the
//! draw plan, and the messages that keep the host's mirror of the clipping
//! frames up to date.

use vstd::prelude::*;
use crate::frame::FrameInstanceView;
use crate::geometry::{coefficient_list, is_composition, is_percent_rule, resolved, Geometry};
use crate::message::{AnyCreatePatchView, FramePatchView, NativeMessageView};
use crate::patch::{cached_patch, lemma_patch_is_idempotent, patch_delta, patch_merged};
use crate::plan::{deeper, draw_plan, draw_plan_of, plan_children, plan_list, plan_node};
use crate::plan::{plan_repeat, scene_of, steps_view, DrawStep, DrawStepView, Place, Scene};
use crate::repeat::RepeatFrame;
use crate::registry::InstanceRegistry;
use crate::rendering::{RenderNode, RenderNodeView, RenderTree};
use crate::runtime::Runtime;
use crate::scalar::is_nan;
use crate::value::Coefficients;

verus! {

/// The frame registered under `id`, if a frame is.
pub open spec fn entered_frame(nodes: Map<u64, RenderNodeView>, id: u64) -> Option<
    FrameInstanceView,
> {
    if nodes.contains_key(id) {
        match nodes[id] {
            RenderNodeView::Frame(frame) => Some(frame),
            _ => None,
        }
    } else {
        None
    }
}

/// The messages owed to the host when the occurrence `id_chain` of a frame is
/// entered with the given geometry, `cache` being what the host was told of
/// that frame and `clipping_ids` the clipping frames around it: a create if
/// the host never heard of the path, then an update of the fields that
/// changed, if any did.
pub open spec fn host_messages(
    cache: Map<Seq<u64>, FramePatchView>,
    clipping_ids: Seq<Seq<u64>>,
    id_chain: Seq<u64>,
    depth: usize,
    size_x: u64,
    size_y: u64,
    transform: Seq<u64>,
) -> Seq<NativeMessageView> {
    let delta = patch_delta(cached_patch(cache, id_chain), id_chain, depth, size_x, size_y, transform);
    (if cache.contains_key(id_chain) {
        Seq::<NativeMessageView>::empty()
    } else {
        seq![NativeMessageView::FrameCreate(AnyCreatePatchView { id_chain, clipping_ids })]
    }) + (if delta.has_any_updates() {
        seq![NativeMessageView::FrameUpdate(delta)]
    } else {
        Seq::<NativeMessageView>::empty()
    })
}

/// What the host was told of a frame once the occurrence `id_chain` was
/// entered with the given geometry.
pub open spec fn cache_after(
    cache: Map<Seq<u64>, FramePatchView>,
    id_chain: Seq<u64>,
    depth: usize,
    size_x: u64,
    size_y: u64,
    transform: Seq<u64>,
) -> Map<Seq<u64>, FramePatchView> {
    cache.insert(
        id_chain,
        patch_merged(cached_patch(cache, id_chain), id_chain, depth, size_x, size_y, transform),
    )
}

/// Enters the node `id` in the draw pass, with the geometry that was
/// resolved for this occurrence of it. For a frame, the host is brought up
/// to date (see [`host_messages`]) and the frame starts clipping. Any other
/// node, and an id that is not registered, changes nothing.
pub fn will_render(
    registry: &mut InstanceRegistry,
    runtime: &mut Runtime,
    id: u64,
    id_chain: &Vec<u64>,
    depth: usize,
    computed_size: (u64, u64),
    transform_coeffs: &Vec<u64>,
)
    ensures
        final(registry).next_id == old(registry).next_id,
        final(registry).marked() == old(registry).marked(),
        old(registry).wf() ==> final(registry).wf(),
        final(runtime).frames() == old(runtime).frames(),
        final(runtime).pushes() == old(runtime).pushes(),
        final(runtime).pops() == old(runtime).pops(),
        match entered_frame(old(registry).nodes(), id) {
            Some(frame) => {
                &&& final(registry).nodes() == old(registry).nodes().insert(
                    id,
                    RenderNodeView::Frame(
                        frame.patched(
                            id_chain@,
                            depth,
                            computed_size.0,
                            computed_size.1,
                            transform_coeffs@,
                        ),
                    ),
                )
                &&& final(runtime).queued() == old(runtime).queued() + host_messages(
                    frame.last_patches,
                    old(runtime).clipping_ids(),
                    id_chain@,
                    depth,
                    computed_size.0,
                    computed_size.1,
                    transform_coeffs@,
                )
                &&& final(runtime).clipping_ids() == old(runtime).clipping_ids().push(id_chain@)
            },
            None => {
                &&& final(registry).nodes() == old(registry).nodes()
                &&& final(runtime).queued() == old(runtime).queued()
                &&& final(runtime).clipping_ids() == old(runtime).clipping_ids()
            },
        },
{
    let taken: Option<RenderNode> = registry.take(id);
    match taken {
        None => {},
        Some(RenderNode::Frame(mut frame)) => {
            if !frame.last_patches.contains(id_chain) {
                frame.handle_did_mount(runtime, id_chain);
            }
            frame.compute_native_patches(runtime, id_chain, computed_size, transform_coeffs, depth);
            frame.handle_will_render(runtime, id_chain);
            registry.register(id, RenderNode::Frame(frame));
        },
        Some(other) => {
            registry.register(id, other);
        },
    }
}

/// Leaves the node `id` in the draw pass: a frame stops clipping. Any other
/// node, and an id that is not registered, changes nothing.
pub fn did_render(registry: &InstanceRegistry, runtime: &mut Runtime, id: u64)
    ensures
        final(runtime).frames() == old(runtime).frames(),
        final(runtime).queued() == old(runtime).queued(),
        final(runtime).pushes() == old(runtime).pushes(),
        final(runtime).pops() == old(runtime).pops(),
        final(runtime).clipping_ids() == (if entered_frame(registry.nodes(), id) is Some
            && old(runtime).clipping_ids().len() > 0 {
            old(runtime).clipping_ids().drop_last()
        } else {
            old(runtime).clipping_ids()
        }),
{
    match registry.get(id) {
        Some(RenderNode::Frame(frame)) => {
            frame.handle_did_render(runtime);
        },
        _ => {},
    }
}

/// What the draw pass changes step by step: the registered nodes, the
/// clipping frames being drawn and the messages waiting for the host.
pub struct HostState {
    pub nodes: Map<u64, RenderNodeView>,
    pub clipping_ids: Seq<Seq<u64>>,
    pub queued: Seq<NativeMessageView>,
}

/// The state that `registry` and `runtime` are in.
pub open spec fn host_state(registry: &InstanceRegistry, runtime: &Runtime) -> HostState {
    HostState {
        nodes: registry.nodes(),
        clipping_ids: runtime.clipping_ids(),
        queued: runtime.queued(),
    }
}

/// The state after one step of the draw pass. Entering a frame brings the
/// host up to date on this occurrence of it and makes it the innermost
/// clipping frame; leaving a frame ends its clipping. Steps on other nodes
/// change nothing.
pub open spec fn after_step(state: HostState, step: DrawStepView) -> HostState {
    match step {
        DrawStepView::WillRender {
            instance_id,
            id_chain,
            depth,
            geometry,
        } => match entered_frame(state.nodes, instance_id) {
            Some(frame) => HostState {
                nodes: state.nodes.insert(
                    instance_id,
                    RenderNodeView::Frame(
                        frame.patched(
                            id_chain,
                            depth,
                            geometry.size.0,
                            geometry.size.1,
                            geometry.transform@,
                        ),
                    ),
                ),
                clipping_ids: state.clipping_ids.push(id_chain),
                queued: state.queued + host_messages(
                    frame.last_patches,
                    state.clipping_ids,
                    id_chain,
                    depth,
                    geometry.size.0,
                    geometry.size.1,
                    geometry.transform@,
                ),
            },
            None => state,
        },
        DrawStepView::DidRender { instance_id } => if entered_frame(state.nodes, instance_id)
            is Some && state.clipping_ids.len() > 0 {
            HostState { clipping_ids: state.clipping_ids.drop_last(), ..state }
        } else {
            state
        },
    }
}

/// The state after the steps of `steps`, in order.
pub open spec fn after_steps(state: HostState, steps: Seq<DrawStepView>) -> HostState
    decreases steps.len(),
{
    if steps.len() == 0 {
        state
    } else {
        after_step(after_steps(state, steps.drop_last()), steps.last())
    }
}

/// Takes the steps of a draw plan in order: enters and leaves each node, so
/// that the messages for the host are enqueued in the order in which their
/// nodes are visited.
pub fn synchronize(registry: &mut InstanceRegistry, runtime: &mut Runtime, steps: &Vec<DrawStep>)
    ensures
        host_state(final(registry), final(runtime)) == after_steps(
            host_state(old(registry), old(runtime)),
            steps_view(steps@),
        ),
        final(registry).next_id == old(registry).next_id,
        final(registry).marked() == old(registry).marked(),
        old(registry).wf() ==> final(registry).wf(),
        final(runtime).frames() == old(runtime).frames(),
        final(runtime).pushes() == old(runtime).pushes(),
        final(runtime).pops() == old(runtime).pops(),
{
    let ghost start = host_state(registry, runtime);
    let mut i: usize = 0;
    while i < steps.len()
        invariant
            i <= steps.len(),
            start == host_state(old(registry), old(runtime)),
            host_state(registry, runtime) == after_steps(start, steps_view(steps@).take(i as int)),
            registry.next_id == old(registry).next_id,
            registry.marked() == old(registry).marked(),
            old(registry).wf() ==> registry.wf(),
            runtime.frames() == old(runtime).frames(),
            runtime.pushes() == old(runtime).pushes(),
            runtime.pops() == old(runtime).pops(),
        decreases steps.len() - i,
    {
        proof {
            let longer = steps_view(steps@).take(i + 1);
            assert(longer.drop_last() =~= steps_view(steps@).take(i as int));
        }
        match &steps[i] {
            DrawStep::WillRender { instance_id, id_chain, depth, geometry } => {
                let transform_coeffs: Vec<u64> = coefficient_list(&geometry.transform);
                will_render(
                    registry,
                    runtime,
                    *instance_id,
                    id_chain,
                    *depth,
                    geometry.size,
                    &transform_coeffs,
                );
            },
            DrawStep::DidRender { instance_id } => {
                did_render(registry, runtime, *instance_id);
            },
        }
        i = i + 1;
    }
    assert(steps_view(steps@).take(i as int) =~= steps_view(steps@));
}

/// One draw pass over `tree` within `viewport`: plans the pass, takes its
/// steps against the host, and returns them for painting.
///
/// A child is drawn only where its id is below its parent's, as it is in
/// every well-formed registry ([`InstanceRegistry::wf`]), where children are
/// minted before their parents; any other child is left out with all
/// beneath it.
pub fn draw_pass<P: Fn(u64, u64) -> u64, C: Fn(Coefficients, Coefficients) -> Coefficients>(
    registry: &mut InstanceRegistry,
    tree: &RenderTree,
    runtime: &mut Runtime,
    viewport: &Geometry,
    percent_of: &P,
    compose: &C,
) -> (steps: Vec<DrawStep>)
    requires
        is_percent_rule(percent_of),
        is_composition(compose),
    ensures
        steps_view(steps@) == draw_plan_of(
            scene_of(old(registry), percent_of, compose),
            tree.root,
            *viewport,
        ),
        host_state(final(registry), final(runtime)) == after_steps(
            host_state(old(registry), old(runtime)),
            steps_view(steps@),
        ),
        final(runtime).clipping_ids() == old(runtime).clipping_ids(),
        final(registry).next_id == old(registry).next_id,
        final(registry).marked() == old(registry).marked(),
        old(registry).wf() ==> final(registry).wf(),
        final(runtime).frames() == old(runtime).frames(),
        final(runtime).pushes() == old(runtime).pushes(),
        final(runtime).pops() == old(runtime).pops(),
{
    let steps: Vec<DrawStep> = draw_plan(registry, tree, viewport, percent_of, compose);
    proof {
        lemma_draw_plan_restores_clipping(
            scene_of(registry, percent_of, compose),
            tree.root,
            *viewport,
            host_state(registry, runtime),
        );
    }
    synchronize(registry, runtime, &steps);
    steps
}

/// `a` and `b` hold frames under the same ids.
pub open spec fn same_frames(a: Map<u64, RenderNodeView>, b: Map<u64, RenderNodeView>) -> bool {
    forall|k: u64| #[trigger] entered_frame(a, k) is Some <==> entered_frame(b, k) is Some
}

/// Taking one list of steps after another is taking them all in order.
pub proof fn lemma_after_steps_concat(
    state: HostState,
    first: Seq<DrawStepView>,
    second: Seq<DrawStepView>,
)
    ensures
        after_steps(state, first + second) == after_steps(after_steps(state, first), second),
    decreases second.len(),
{
    if second.len() == 0 {
    } else {
        lemma_after_steps_concat(state, first, second.drop_last());
        assert((first + second).drop_last() =~= first + second.drop_last());
    }
}

/// The steps leave the clipping frames as they found them, in any state
/// that holds frames where the planned tree does.
spec fn is_balanced(nodes: Map<u64, RenderNodeView>, steps: Seq<DrawStepView>) -> bool {
    forall|state: HostState|
        same_frames(nodes, state.nodes) ==> {
            &&& (#[trigger] after_steps(state, steps)).clipping_ids == state.clipping_ids
            &&& same_frames(nodes, after_steps(state, steps).nodes)
        }
}

proof fn lemma_balanced_concat(
    nodes: Map<u64, RenderNodeView>,
    first: Seq<DrawStepView>,
    second: Seq<DrawStepView>,
)
    requires
        is_balanced(nodes, first),
        is_balanced(nodes, second),
    ensures
        is_balanced(nodes, first + second),
{
    assert forall|state: HostState| same_frames(nodes, state.nodes) implies {
        &&& (#[trigger] after_steps(state, first + second)).clipping_ids == state.clipping_ids
        &&& same_frames(nodes, after_steps(state, first + second).nodes)
    } by {
        lemma_after_steps_concat(state, first, second);
        let middle = after_steps(state, first);
        let end = after_steps(middle, second);
    }
}

/// Entering a node keeps frames where they are, and pushes the node's path
/// if the node is a frame.
proof fn lemma_enter_step(
    nodes: Map<u64, RenderNodeView>,
    state: HostState,
    id: u64,
    id_chain: Seq<u64>,
    depth: usize,
    geometry: Geometry,
)
    requires
        same_frames(nodes, state.nodes),
    ensures
        ({
            let entered = after_step(
                state,
                DrawStepView::WillRender { instance_id: id, id_chain, depth, geometry },
            );
            &&& same_frames(nodes, entered.nodes)
            &&& entered.clipping_ids == (if entered_frame(nodes, id) is Some {
                state.clipping_ids.push(id_chain)
            } else {
                state.clipping_ids
            })
        }),
{
    let entered = after_step(
        state,
        DrawStepView::WillRender { instance_id: id, id_chain, depth, geometry },
    );
    assert forall|k: u64| #[trigger]
        entered_frame(nodes, k) is Some <==> entered_frame(entered.nodes, k) is Some by {
    }
}

/// Leaving a node changes no node, and pops the innermost clipping frame if
/// the node is a frame.
proof fn lemma_leave_step(nodes: Map<u64, RenderNodeView>, state: HostState, id: u64)
    requires
        same_frames(nodes, state.nodes),
    ensures
        ({
            let left = after_step(state, DrawStepView::DidRender { instance_id: id });
            &&& left.nodes == state.nodes
            &&& left.clipping_ids == (if entered_frame(nodes, id) is Some
                && state.clipping_ids.len() > 0 {
                state.clipping_ids.drop_last()
            } else {
                state.clipping_ids
            })
        }),
{
}

/// Balanced steps between entering a node and leaving it are balanced.
proof fn lemma_bracket_balanced(
    nodes: Map<u64, RenderNodeView>,
    id: u64,
    id_chain: Seq<u64>,
    depth: usize,
    geometry: Geometry,
    beneath: Seq<DrawStepView>,
)
    requires
        is_balanced(nodes, beneath),
    ensures
        is_balanced(
            nodes,
            seq![DrawStepView::WillRender { instance_id: id, id_chain, depth, geometry }] + beneath
                + seq![DrawStepView::DidRender { instance_id: id }],
        ),
{
    let enter = DrawStepView::WillRender { instance_id: id, id_chain, depth, geometry };
    let leave = DrawStepView::DidRender { instance_id: id };
    let steps = seq![enter] + beneath + seq![leave];
    assert forall|state: HostState| same_frames(nodes, state.nodes) implies {
        &&& (#[trigger] after_steps(state, steps)).clipping_ids == state.clipping_ids
        &&& same_frames(nodes, after_steps(state, steps).nodes)
    } by {
        let entered = after_step(state, enter);
        lemma_enter_step(nodes, state, id, id_chain, depth, geometry);
        assert(after_steps(state, seq![enter]) == entered) by {
            assert(seq![enter].drop_last() =~= Seq::<DrawStepView>::empty());
            assert(after_steps(state, Seq::<DrawStepView>::empty()) == state);
        }
        lemma_after_steps_concat(state, seq![enter], beneath);
        let drawn = after_steps(entered, beneath);
        lemma_leave_step(nodes, drawn, id);
        assert(after_steps(state, steps) == after_step(drawn, leave)) by {
            assert(steps.drop_last() =~= seq![enter] + beneath);
        }
    }
}

proof fn lemma_plan_node_balanced<
    P: Fn(u64, u64) -> u64,
    C: Fn(Coefficients, Coefficients) -> Coefficients,
>(scene: Scene<P, C>, id: u64, place: Place)
    ensures
        is_balanced(scene.nodes, plan_node(scene, id, place)),
    decreases id, 3nat, 0nat,
{
    let nodes = scene.nodes;
    if !nodes.contains_key(id) || scene.marked.contains(id) {
    } else if nodes[id].flattens() {
        lemma_plan_children_balanced(scene, id, Place { path: place.path.push(id), ..place });
    } else {
        let geometry = resolved(nodes[id], place.inherited, scene.percent_of, scene.compose);
        let below = Place {
            depth: deeper(place.depth),
            path: place.path.push(id),
            inherited: geometry,
        };
        lemma_plan_children_balanced(scene, id, below);
        lemma_bracket_balanced(
            nodes,
            id,
            place.path.push(id),
            place.depth,
            geometry,
            plan_children(scene, id, below),
        );
    }
}

proof fn lemma_plan_children_balanced<
    P: Fn(u64, u64) -> u64,
    C: Fn(Coefficients, Coefficients) -> Coefficients,
>(scene: Scene<P, C>, id: u64, place: Place)
    ensures
        is_balanced(scene.nodes, plan_children(scene, id, place)),
    decreases id, 2nat, 0nat,
{
    match scene.nodes[id] {
        RenderNodeView::Repeat(r) => {
            lemma_plan_repeat_balanced(scene, id, r.children, r.virtual_children, place);
        },
        node => {
            lemma_plan_list_balanced(scene, id, node.rendering_children(), place);
        },
    }
}

proof fn lemma_plan_repeat_balanced<
    P: Fn(u64, u64) -> u64,
    C: Fn(Coefficients, Coefficients) -> Coefficients,
>(scene: Scene<P, C>, bound: u64, template: Seq<u64>, frames: Seq<RepeatFrame>, place: Place)
    ensures
        is_balanced(scene.nodes, plan_repeat(scene, bound, template, frames, place)),
    decreases bound, 1nat, frames.len(),
{
    if frames.len() > 0 {
        let inner = Place { path: place.path.push(frames.last().i as u64), ..place };
        lemma_plan_repeat_balanced(scene, bound, template, frames.drop_last(), place);
        lemma_plan_list_balanced(scene, bound, template, inner);
        lemma_balanced_concat(
            scene.nodes,
            plan_repeat(scene, bound, template, frames.drop_last(), place),
            plan_list(scene, bound, template, inner),
        );
    }
}

proof fn lemma_plan_list_balanced<
    P: Fn(u64, u64) -> u64,
    C: Fn(Coefficients, Coefficients) -> Coefficients,
>(scene: Scene<P, C>, bound: u64, list: Seq<u64>, place: Place)
    ensures
        is_balanced(scene.nodes, plan_list(scene, bound, list, place)),
    decreases bound, 0nat, list.len(),
{
    if list.len() > 0 {
        lemma_plan_list_balanced(scene, bound, list.drop_last(), place);
        let last = if list.last() < bound {
            plan_node(scene, list.last(), place)
        } else {
            Seq::empty()
        };
        if list.last() < bound {
            lemma_plan_node_balanced(scene, list.last(), place);
        }
        lemma_balanced_concat(scene.nodes, plan_list(scene, bound, list.drop_last(), place), last);
    }
}

/// Clipping is balanced: the steps of a draw plan leave the clipping frames
/// as they found them. Every frame that is entered is left again, after
/// what is beneath it and before anything beside it.
pub proof fn lemma_draw_plan_restores_clipping<
    P: Fn(u64, u64) -> u64,
    C: Fn(Coefficients, Coefficients) -> Coefficients,
>(scene: Scene<P, C>, root: u64, viewport: Geometry, state: HostState)
    requires
        state.nodes == scene.nodes,
    ensures
        after_steps(state, draw_plan_of(scene, root, viewport)).clipping_ids == state.clipping_ids,
{
    lemma_plan_node_balanced(
        scene,
        root,
        Place { depth: 0, path: Seq::empty(), inherited: viewport },
    );
}

/// Patches are minimal. A path that the host never heard of is announced by
/// a create and a full update, in that order. Once a frame was entered with
/// some geometry, entering it again with the same numbers owes the host
/// nothing, and leaves the cache as it is: a node that stands still is
/// reported once. A NaN is the one exception: it differs from itself, so it
/// is reported on every frame.
pub proof fn lemma_static_frame_is_reported_once(
    cache: Map<Seq<u64>, FramePatchView>,
    clipping_ids: Seq<Seq<u64>>,
    later_clipping_ids: Seq<Seq<u64>>,
    id_chain: Seq<u64>,
    depth: usize,
    size_x: u64,
    size_y: u64,
    transform: Seq<u64>,
)
    requires
        !is_nan(size_x),
        !is_nan(size_y),
        forall|i: int| 0 <= i < transform.len() ==> !is_nan(#[trigger] transform[i]),
    ensures
        !cache.contains_key(id_chain) ==> host_messages(
            cache,
            clipping_ids,
            id_chain,
            depth,
            size_x,
            size_y,
            transform,
        ) == seq![
            NativeMessageView::FrameCreate(AnyCreatePatchView { id_chain, clipping_ids }),
            NativeMessageView::FrameUpdate(
                FramePatchView {
                    id_chain,
                    depth: Some(depth),
                    size_x: Some(size_x),
                    size_y: Some(size_y),
                    transform: Some(transform),
                },
            ),
        ],
        host_messages(
            cache_after(cache, id_chain, depth, size_x, size_y, transform),
            later_clipping_ids,
            id_chain,
            depth,
            size_x,
            size_y,
            transform,
        ) == Seq::<NativeMessageView>::empty(),
        cache_after(
            cache_after(cache, id_chain, depth, size_x, size_y, transform),
            id_chain,
            depth,
            size_x,
            size_y,
            transform,
        ) == cache_after(cache, id_chain, depth, size_x, size_y, transform),
{
    let cached = cached_patch(cache, id_chain);
    lemma_patch_is_idempotent(cached, id_chain, depth, size_x, size_y, transform);
    let after = cache_after(cache, id_chain, depth, size_x, size_y, transform);
}

} // verus!
