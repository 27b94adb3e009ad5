//! The draw plan: which nodes a frame paints, in which order and where, with
//! control-flow nodes flattened away and unmounted nodes left out.

use vstd::prelude::*;
use crate::conditional::ConditionalInstanceView;
use crate::geometry::{is_composition, is_percent_rule, resolve_geometry, resolved, Geometry};
use crate::message::copy_chain;
use crate::registry::{beneath_branch, InstanceRegistry};
use crate::rendering::{RenderNode, RenderNodeView, RenderTree};
use crate::repeat::RepeatFrame;
use crate::value::Coefficients;

verus! {

/// One step of the draw pass.
pub enum DrawStep {
    /// Enter a node at `geometry`: bring the host up to date, run the
    /// node's hooks before and for drawing, then draw what follows up to the
    /// matching `DidRender` beneath it.
    WillRender { instance_id: u64, id_chain: Vec<u64>, depth: usize, geometry: Geometry },
    /// Leave a node whose subtree has been drawn: run its hook after
    /// drawing.
    DidRender { instance_id: u64 },
}

/// What a [`DrawStep`] says.
pub enum DrawStepView {
    WillRender { instance_id: u64, id_chain: Seq<u64>, depth: usize, geometry: Geometry },
    DidRender { instance_id: u64 },
}

impl DrawStepView {
    /// The node that the step enters or leaves.
    pub open spec fn node(self) -> u64 {
        match self {
            DrawStepView::WillRender { instance_id, .. } => instance_id,
            DrawStepView::DidRender { instance_id } => instance_id,
        }
    }
}

impl View for DrawStep {
    type V = DrawStepView;

    open spec fn view(&self) -> DrawStepView {
        match self {
            DrawStep::WillRender {
                instance_id,
                id_chain,
                depth,
                geometry,
            } => DrawStepView::WillRender {
                instance_id: *instance_id,
                id_chain: id_chain@,
                depth: *depth,
                geometry: *geometry,
            },
            DrawStep::DidRender { instance_id } => DrawStepView::DidRender {
                instance_id: *instance_id,
            },
        }
    }
}

/// What a list of steps says, in order.
pub open spec fn steps_view(steps: Seq<DrawStep>) -> Seq<DrawStepView> {
    steps.map_values(|s: DrawStep| s@)
}

/// The depth one level further down. Depths stop counting at the largest
/// number the machine holds.
pub open spec fn deeper(depth: usize) -> usize {
    if depth < usize::MAX {
        (depth + 1) as usize
    } else {
        depth
    }
}

/// The tree as a draw pass reads it, and the arithmetic it is given.
pub struct Scene<'a, P, C> {
    pub nodes: Map<u64, RenderNodeView>,
    pub marked: Set<u64>,
    pub percent_of: &'a P,
    pub compose: &'a C,
}

/// Where one occurrence of a node stands in the drawn tree: how deep, under
/// which ancestors, and within which geometry. `path` names the ancestors,
/// outermost first: the instance id of each node on the way down, and after
/// the id of a repeat the index of the materialized child that was entered.
pub struct Place {
    pub depth: usize,
    pub path: Seq<u64>,
    pub inherited: Geometry,
}

/// The steps that draw the node `id` and what is beneath it. A node that is
/// not registered or is marked for unmount is left out with all beneath it.
/// A flattening node is replaced by its children, which stand where it
/// stands: at its depth and within the geometry it inherits. Any other node
/// is entered at its own geometry, resolved within the inherited one, and
/// left once its children are drawn one level deeper within its geometry.
///
/// A child is drawn only where its id is below its parent's, as it is in
/// every well-formed registry ([`InstanceRegistry::wf`]), where children are
/// minted before their parents; any other child is left out with all
/// beneath it.
pub open spec fn plan_node<P: Fn(u64, u64) -> u64, C: Fn(Coefficients, Coefficients) -> Coefficients>(
    scene: Scene<P, C>,
    id: u64,
    place: Place,
) -> Seq<DrawStepView>
    decreases id, 3nat, 0nat,
{
    if !scene.nodes.contains_key(id) || scene.marked.contains(id) {
        Seq::empty()
    } else if scene.nodes[id].flattens() {
        plan_children(scene, id, Place { path: place.path.push(id), ..place })
    } else {
        let geometry = resolved(
            scene.nodes[id],
            place.inherited,
            scene.percent_of,
            scene.compose,
        );
        seq![
            DrawStepView::WillRender {
                instance_id: id,
                id_chain: place.path.push(id),
                depth: place.depth,
                geometry,
            },
        ] + plan_children(
            scene,
            id,
            Place { depth: deeper(place.depth), path: place.path.push(id), inherited: geometry },
        ) + seq![DrawStepView::DidRender { instance_id: id }]
    }
}

/// The steps that draw what is beneath the registered node `id`.
pub open spec fn plan_children<
    P: Fn(u64, u64) -> u64,
    C: Fn(Coefficients, Coefficients) -> Coefficients,
>(scene: Scene<P, C>, id: u64, place: Place) -> Seq<DrawStepView>
    decreases id, 2nat, 0nat,
{
    match scene.nodes[id] {
        RenderNodeView::Repeat(r) => plan_repeat(scene, id, r.children, r.virtual_children, place),
        node => plan_list(scene, id, node.rendering_children(), place),
    }
}

/// The steps that draw `template` once for each of `frames`, in order, each
/// time under the path extended by the frame's index.
pub open spec fn plan_repeat<
    P: Fn(u64, u64) -> u64,
    C: Fn(Coefficients, Coefficients) -> Coefficients,
>(
    scene: Scene<P, C>,
    bound: u64,
    template: Seq<u64>,
    frames: Seq<RepeatFrame>,
    place: Place,
) -> Seq<DrawStepView>
    decreases bound, 1nat, frames.len(),
{
    if frames.len() == 0 {
        Seq::empty()
    } else {
        plan_repeat(scene, bound, template, frames.drop_last(), place) + plan_list(
            scene,
            bound,
            template,
            Place { path: place.path.push(frames.last().i as u64), ..place },
        )
    }
}

/// The steps that draw the nodes of `list`, in order. Only nodes with an id
/// below `bound` are drawn; in a well-formed registry every child is.
pub open spec fn plan_list<P: Fn(u64, u64) -> u64, C: Fn(Coefficients, Coefficients) -> Coefficients>(
    scene: Scene<P, C>,
    bound: u64,
    list: Seq<u64>,
    place: Place,
) -> Seq<DrawStepView>
    decreases bound, 0nat, list.len(),
{
    if list.len() == 0 {
        Seq::empty()
    } else {
        plan_list(scene, bound, list.drop_last(), place) + (if list.last() < bound {
            plan_node(scene, list.last(), place)
        } else {
            Seq::empty()
        })
    }
}

/// The steps of one draw pass from `root` within `viewport`.
pub open spec fn draw_plan_of<
    P: Fn(u64, u64) -> u64,
    C: Fn(Coefficients, Coefficients) -> Coefficients,
>(scene: Scene<P, C>, root: u64, viewport: Geometry) -> Seq<DrawStepView> {
    plan_node(scene, root, Place { depth: 0, path: Seq::empty(), inherited: viewport })
}

/// A step enters or leaves a registered node that is not marked for unmount
/// and does not flatten.
pub open spec fn step_is_drawable(
    nodes: Map<u64, RenderNodeView>,
    marked: Set<u64>,
    step: DrawStepView,
) -> bool {
    &&& nodes.contains_key(step.node())
    &&& !marked.contains(step.node())
    &&& !nodes[step.node()].flattens()
}

/// Every step of `steps` is drawable.
pub open spec fn all_drawable(
    nodes: Map<u64, RenderNodeView>,
    marked: Set<u64>,
    steps: Seq<DrawStepView>,
) -> bool {
    forall|i: int| 0 <= i < steps.len() ==> step_is_drawable(nodes, marked, #[trigger] steps[i])
}

proof fn lemma_plan_node_drawable<
    P: Fn(u64, u64) -> u64,
    C: Fn(Coefficients, Coefficients) -> Coefficients,
>(scene: Scene<P, C>, id: u64, place: Place)
    ensures
        all_drawable(scene.nodes, scene.marked, plan_node(scene, id, place)),
    decreases id, 3nat, 0nat,
{
    if !scene.nodes.contains_key(id) || scene.marked.contains(id) {
    } else if scene.nodes[id].flattens() {
        lemma_plan_children_drawable(scene, id, Place { path: place.path.push(id), ..place });
    } else {
        let geometry = resolved(
            scene.nodes[id],
            place.inherited,
            scene.percent_of,
            scene.compose,
        );
        lemma_plan_children_drawable(
            scene,
            id,
            Place { depth: deeper(place.depth), path: place.path.push(id), inherited: geometry },
        );
    }
}

proof fn lemma_plan_children_drawable<
    P: Fn(u64, u64) -> u64,
    C: Fn(Coefficients, Coefficients) -> Coefficients,
>(scene: Scene<P, C>, id: u64, place: Place)
    ensures
        all_drawable(scene.nodes, scene.marked, plan_children(scene, id, place)),
    decreases id, 2nat, 0nat,
{
    match scene.nodes[id] {
        RenderNodeView::Repeat(r) => {
            lemma_plan_repeat_drawable(scene, id, r.children, r.virtual_children, place);
        },
        node => {
            lemma_plan_list_drawable(scene, id, node.rendering_children(), place);
        },
    }
}

proof fn lemma_plan_repeat_drawable<
    P: Fn(u64, u64) -> u64,
    C: Fn(Coefficients, Coefficients) -> Coefficients,
>(scene: Scene<P, C>, bound: u64, template: Seq<u64>, frames: Seq<RepeatFrame>, place: Place)
    ensures
        all_drawable(
            scene.nodes,
            scene.marked,
            plan_repeat(scene, bound, template, frames, place),
        ),
    decreases bound, 1nat, frames.len(),
{
    if frames.len() > 0 {
        lemma_plan_repeat_drawable(scene, bound, template, frames.drop_last(), place);
        lemma_plan_list_drawable(
            scene,
            bound,
            template,
            Place { path: place.path.push(frames.last().i as u64), ..place },
        );
    }
}

proof fn lemma_plan_list_drawable<
    P: Fn(u64, u64) -> u64,
    C: Fn(Coefficients, Coefficients) -> Coefficients,
>(scene: Scene<P, C>, bound: u64, list: Seq<u64>, place: Place)
    ensures
        all_drawable(scene.nodes, scene.marked, plan_list(scene, bound, list, place)),
    decreases bound, 0nat, list.len(),
{
    if list.len() > 0 {
        lemma_plan_list_drawable(scene, bound, list.drop_last(), place);
        if list.last() < bound {
            lemma_plan_node_drawable(scene, list.last(), place);
        }
    }
}

/// Whatever the tree, however deep control-flow nodes nest in it, every step
/// of the draw plan enters or leaves a node that is registered, is not
/// marked for unmount and does not flatten.
pub proof fn lemma_draw_plan_is_flat<
    P: Fn(u64, u64) -> u64,
    C: Fn(Coefficients, Coefficients) -> Coefficients,
>(scene: Scene<P, C>, root: u64, viewport: Geometry)
    ensures
        all_drawable(scene.nodes, scene.marked, draw_plan_of(scene, root, viewport)),
{
    lemma_plan_node_drawable(
        scene,
        root,
        Place { depth: 0, path: Seq::empty(), inherited: viewport },
    );
}

/// A conditional changes branches safely. Let `node` be a conditional whose
/// property pass evaluated its boolean to `selected`, and let `after` be
/// what that pass made of the registry `before`. Then every instance beneath
/// the branch that `selected` deselects, a member of the branch or a node
/// anywhere in a member's subtree, is deregistered and marked for unmount.
/// And as long as no mark is taken back, no draw plan enters or leaves such
/// an instance, whatever else has happened to the tree by then: not the plan
/// of the same frame, nor that of the next.
pub proof fn lemma_conditional_transition_is_safe<
    P: Fn(u64, u64) -> u64,
    C: Fn(Coefficients, Coefficients) -> Coefficients,
>(
    node: ConditionalInstanceView,
    selected: bool,
    before: InstanceRegistry,
    after: InstanceRegistry,
    instance: u64,
    later: Scene<P, C>,
    root: u64,
    viewport: Geometry,
)
    requires
        after.nodes() == before.nodes().remove_keys(
            node.unmounted_by(before.nodes(), Some(selected)),
        ),
        after.marked() == before.marked().union(
            node.unmounted_by(before.nodes(), Some(selected)),
        ),
        beneath_branch(before.nodes(), node.deselected(selected)).contains(instance),
        after.marked().subset_of(later.marked),
    ensures
        node.selection_due() != selected,
        node.deselected(selected) == (if node.selection_due() {
            node.true_branch_children
        } else {
            node.false_branch_children
        }),
        !after.nodes().contains_key(instance),
        after.marked().contains(instance),
        forall|i: int|
            0 <= i < draw_plan_of(later, root, viewport).len() ==> (#[trigger] draw_plan_of(
                later,
                root,
                viewport,
            )[i]).node() != instance,
{
    lemma_draw_plan_is_flat(later, root, viewport);
}

/// The scene that `registry` shows to a draw pass.
pub open spec fn scene_of<'a, P, C>(
    registry: &InstanceRegistry,
    percent_of: &'a P,
    compose: &'a C,
) -> Scene<'a, P, C> {
    Scene { nodes: registry.nodes(), marked: registry.marked(), percent_of, compose }
}

fn plan_node_into<P: Fn(u64, u64) -> u64, C: Fn(Coefficients, Coefficients) -> Coefficients>(
    registry: &InstanceRegistry,
    percent_of: &P,
    compose: &C,
    id: u64,
    depth: usize,
    path: &Vec<u64>,
    inherited: &Geometry,
    out: &mut Vec<DrawStep>,
)
    requires
        is_percent_rule(percent_of),
        is_composition(compose),
    ensures
        steps_view(final(out)@) == steps_view(old(out)@) + plan_node(
            scene_of(registry, percent_of, compose),
            id,
            Place { depth, path: path@, inherited: *inherited },
        ),
    decreases id, 3nat, 0nat,
{
    if registry.is_marked_for_unmount(id) {
        return ;
    }
    match registry.get(id) {
        None => {},
        Some(node) => {
            let mut here: Vec<u64> = copy_chain(path);
            here.push(id);
            if node.should_flatten() {
                plan_children_into(registry, percent_of, compose, id, node, depth, &here, inherited, out);
            } else {
                let geometry: Geometry = resolve_geometry(node, inherited, percent_of, compose);
                let ghost leave = DrawStepView::DidRender { instance_id: id };
                out.push(
                    DrawStep::WillRender {
                        instance_id: id,
                        id_chain: copy_chain(&here),
                        depth,
                        geometry,
                    },
                );
                let below: usize = if depth < usize::MAX {
                    depth + 1
                } else {
                    depth
                };
                plan_children_into(registry, percent_of, compose, id, node, below, &here, &geometry, out);
                let ghost middle = steps_view(out@);
                out.push(DrawStep::DidRender { instance_id: id });
                assert(steps_view(out@) =~= middle.push(leave));
            }
        },
    }
}

fn plan_children_into<P: Fn(u64, u64) -> u64, C: Fn(Coefficients, Coefficients) -> Coefficients>(
    registry: &InstanceRegistry,
    percent_of: &P,
    compose: &C,
    id: u64,
    node: &RenderNode,
    depth: usize,
    path: &Vec<u64>,
    inherited: &Geometry,
    out: &mut Vec<DrawStep>,
)
    requires
        is_percent_rule(percent_of),
        is_composition(compose),
        registry.nodes().contains_key(id),
        node@ == registry.nodes()[id],
    ensures
        steps_view(final(out)@) == steps_view(old(out)@) + plan_children(
            scene_of(registry, percent_of, compose),
            id,
            Place { depth, path: path@, inherited: *inherited },
        ),
    decreases id, 2nat, 0nat,
{
    let ghost scene = scene_of(registry, percent_of, compose);
    let ghost place = Place { depth, path: path@, inherited: *inherited };
    match node {
        RenderNode::Repeat(r) => {
            let ghost before = steps_view(out@);
            let mut j: usize = 0;
            while j < r.virtual_children.len()
                invariant
                    j <= r.virtual_children.len(),
                    is_percent_rule(percent_of),
                    is_composition(compose),
                    scene == scene_of(registry, percent_of, compose),
                    place == (Place { depth, path: path@, inherited: *inherited }),
                    steps_view(out@) == before + plan_repeat(
                        scene,
                        id,
                        r.children@,
                        r.virtual_children@.take(j as int),
                        place,
                    ),
                decreases r.virtual_children.len() - j,
            {
                let mut item_path: Vec<u64> = copy_chain(path);
                item_path.push(r.virtual_children[j].i as u64);
                plan_list_into(
                    registry,
                    percent_of,
                    compose,
                    id,
                    &r.children,
                    depth,
                    &item_path,
                    inherited,
                    out,
                );
                proof {
                    let longer = r.virtual_children@.take(j + 1);
                    assert(longer.drop_last() =~= r.virtual_children@.take(j as int));
                    let item = plan_list(
                        scene,
                        id,
                        r.children@,
                        Place { path: item_path@, ..place },
                    );
                }
                j = j + 1;
            }
            assert(r.virtual_children@.take(j as int) =~= r.virtual_children@);
        },
        other => {
            let children: Vec<u64> = other.get_rendering_children();
            plan_list_into(
                registry,
                percent_of,
                compose,
                id,
                &children,
                depth,
                path,
                inherited,
                out,
            );
        },
    }
}

fn plan_list_into<P: Fn(u64, u64) -> u64, C: Fn(Coefficients, Coefficients) -> Coefficients>(
    registry: &InstanceRegistry,
    percent_of: &P,
    compose: &C,
    bound: u64,
    list: &Vec<u64>,
    depth: usize,
    path: &Vec<u64>,
    inherited: &Geometry,
    out: &mut Vec<DrawStep>,
)
    requires
        is_percent_rule(percent_of),
        is_composition(compose),
    ensures
        steps_view(final(out)@) == steps_view(old(out)@) + plan_list(
            scene_of(registry, percent_of, compose),
            bound,
            list@,
            Place { depth, path: path@, inherited: *inherited },
        ),
    decreases bound, 0nat, list.len(),
{
    let ghost scene = scene_of(registry, percent_of, compose);
    let ghost place = Place { depth, path: path@, inherited: *inherited };
    let ghost before = steps_view(out@);
    let mut k: usize = 0;
    while k < list.len()
        invariant
            k <= list.len(),
            is_percent_rule(percent_of),
            is_composition(compose),
            scene == scene_of(registry, percent_of, compose),
            place == (Place { depth, path: path@, inherited: *inherited }),
            steps_view(out@) == before + plan_list(scene, bound, list@.take(k as int), place),
        decreases list.len() - k,
    {
        let child: u64 = list[k];
        proof {
            let longer = list@.take(k + 1);
            assert(longer.drop_last() =~= list@.take(k as int));
        }
        if child < bound {
            plan_node_into(registry, percent_of, compose, child, depth, path, inherited, out);
        }
        k = k + 1;
    }
    assert(list@.take(k as int) =~= list@);
}

/// Lists the steps of one draw pass over `tree` within `viewport`: a
/// pre-order walk from the root in which flattening nodes give way to their
/// children, however deep they nest, and nodes that are deregistered or
/// marked for unmount are skipped with all beneath them. Each node that is
/// entered has its size resolved against the geometry it inherits and its
/// transform composed with the inherited one; the arithmetic is that of
/// `percent_of` and `compose`.
///
/// A child is drawn only where its id is below its parent's, as it is in
/// every well-formed registry ([`InstanceRegistry::wf`]), where children are
/// minted before their parents; any other child is left out with all
/// beneath it.
pub fn draw_plan<P: Fn(u64, u64) -> u64, C: Fn(Coefficients, Coefficients) -> Coefficients>(
    registry: &InstanceRegistry,
    tree: &RenderTree,
    viewport: &Geometry,
    percent_of: &P,
    compose: &C,
) -> (steps: Vec<DrawStep>)
    requires
        is_percent_rule(percent_of),
        is_composition(compose),
    ensures
        steps_view(steps@) == draw_plan_of(
            scene_of(registry, percent_of, compose),
            tree.root,
            *viewport,
        ),
        all_drawable(registry.nodes(), registry.marked(), steps_view(steps@)),
{
    let mut steps: Vec<DrawStep> = Vec::new();
    let path: Vec<u64> = Vec::new();
    plan_node_into(registry, percent_of, compose, tree.root, 0, &path, viewport, &mut steps);
    proof {
        let scene = scene_of(registry, percent_of, compose);
        let plan = draw_plan_of(scene, tree.root, *viewport);
        lemma_draw_plan_is_flat(scene, tree.root, *viewport);
    }
    steps
}

} // verus!
