//! What a property pass does, stated over views: the walk, what it asks of
//! the evaluator, and what it leaves of the registry.

use vstd::prelude::*;
use crate::conditional::selection_of;
use crate::registry::{lemma_beneath_branch_stays_below, nodes_wf};
use crate::rendering::{all_below, RenderNodeView};
use crate::repeat::{materialized, repeat_bindings, RepeatFrame};
use crate::runtime::Runtime;
use crate::scope::StackFrameView;
use crate::value::{EngineError, TypedValue};

verus! {

/// The evaluator yields `value` for the expression `vtable_id` under some
/// runtime whose scopes are `frames`.
pub open spec fn evaluates<E: Fn(u64, &Runtime) -> Option<TypedValue>>(
    evaluator: &E,
    vtable_id: u64,
    frames: Seq<StackFrameView>,
    value: Option<TypedValue>,
) -> bool {
    exists|runtime: Runtime|
        runtime.frames() == frames && call_ensures(*evaluator, (vtable_id, &runtime), value)
}

/// `evaluator` evaluates compiled expressions: it may be asked for any
/// expression under any runtime, and what it yields is decided by the
/// expression and the scopes on the stack. It yields `None` where nothing is
/// compiled under an id.
pub open spec fn is_evaluator<E: Fn(u64, &Runtime) -> Option<TypedValue>>(evaluator: &E) -> bool {
    &&& forall|vtable_id: u64, runtime: Runtime| call_requires(*evaluator, (vtable_id, &runtime))
    &&& forall|
        vtable_id: u64,
        frames: Seq<StackFrameView>,
        v1: Option<TypedValue>,
        v2: Option<TypedValue>,
    |
        evaluates(evaluator, vtable_id, frames, v1) && evaluates(evaluator, vtable_id, frames, v2)
            ==> v1 == v2
}

/// The value of the expression `vtable_id` under the scopes `frames`,
/// outermost first.
pub open spec fn value_of<E: Fn(u64, &Runtime) -> Option<TypedValue>>(
    evaluator: &E,
    vtable_id: u64,
    frames: Seq<StackFrameView>,
) -> Option<TypedValue> {
    choose|value: Option<TypedValue>| evaluates(evaluator, vtable_id, frames, value)
}

/// What an evaluator yields for a property: nothing where the property is
/// bound to no expression.
pub open spec fn evaluated<E: Fn(u64, &Runtime) -> Option<TypedValue>>(
    evaluator: &E,
    vtable_id: Option<u64>,
    frames: Seq<StackFrameView>,
) -> Option<TypedValue> {
    match vtable_id {
        Some(id) => value_of(evaluator, id, frames),
        None => None,
    }
}

/// What a property pass leaves behind: the registered nodes, the ids marked
/// for unmount, and the mismatch that ended the pass, if one did.
pub struct PassOutcome {
    pub nodes: Map<u64, RenderNodeView>,
    pub marked: Set<u64>,
    pub failure: Option<EngineError>,
}

/// The mismatch that a result reports, if it reports one.
pub open spec fn failure_of(r: Result<(), EngineError>) -> Option<EngineError> {
    match r {
        Ok(_) => None,
        Err(e) => Some(e),
    }
}

/// The property pass over the node `id` and what it draws beneath it, under
/// the scopes `frames`.
///
/// A node that is not registered or is marked for unmount is passed over.
/// A component is left as it is, and its template is visited under one more
/// frame, which holds the component's properties and adoptees. A rectangle
/// and a frame take over what their expressions yield; a frame's children
/// are visited then. A repeat materializes its children, and its template is
/// visited once for each of them, in list order, under one more frame that
/// binds the child's index and datum. A conditional puts its due selection
/// on display, buffers what its boolean yields, unmounts every instance
/// beneath the branch this deselects, and has the children on display
/// visited. The first mismatch of types ends the pass; what was done up to
/// it stays.
///
/// A child is visited only where its id is below its parent's, as it is in
/// every well-formed registry, where children are minted before their
/// parents; any other child is passed over.
pub open spec fn pass_node<E: Fn(u64, &Runtime) -> Option<TypedValue>>(
    evaluator: &E,
    nodes: Map<u64, RenderNodeView>,
    marked: Set<u64>,
    frames: Seq<StackFrameView>,
    id: u64,
) -> PassOutcome
    decreases id, 2nat, 0nat,
{
    if marked.contains(id) || !nodes.contains_key(id) {
        PassOutcome { nodes, marked, failure: None }
    } else {
        match nodes[id] {
            RenderNodeView::Component(c) => pass_list(
                evaluator,
                nodes,
                marked,
                frames.push(StackFrameView { adoptees: c.adoptees, scope: c.properties }),
                id,
                c.template,
            ),
            RenderNodeView::Rectangle(r) => match r.refreshed(
                evaluated(evaluator, r.size.0.vtable_id, frames),
                evaluated(evaluator, r.size.1.vtable_id, frames),
                evaluated(evaluator, r.fill.vtable_id, frames),
            ) {
                Ok(refreshed) => PassOutcome {
                    nodes: nodes.insert(id, RenderNodeView::Rectangle(refreshed)),
                    marked,
                    failure: None,
                },
                Err(e) => PassOutcome { nodes, marked, failure: Some(e) },
            },
            RenderNodeView::Repeat(r) => pass_repeat(
                evaluator,
                nodes.insert(id, RenderNodeView::Repeat(r.rematerialized())),
                marked,
                frames,
                id,
                r.children,
                materialized(r.list),
            ),
            RenderNodeView::Conditional(c) => match selection_of(
                evaluated(evaluator, c.boolean_expression.vtable_id, frames),
            ) {
                Ok(selected) => pass_list(
                    evaluator,
                    nodes.remove_keys(c.unmounted_by(nodes.remove(id), selected)).insert(
                        id,
                        RenderNodeView::Conditional(c.stepped(selected)),
                    ),
                    marked.union(c.unmounted_by(nodes.remove(id), selected)),
                    frames,
                    id,
                    c.stepped(selected).rendering_children(),
                ),
                Err(e) => PassOutcome { nodes, marked, failure: Some(e) },
            },
            RenderNodeView::Frame(f) => match f.refreshed(
                evaluated(evaluator, f.size.0.vtable_id, frames),
                evaluated(evaluator, f.size.1.vtable_id, frames),
                evaluated(evaluator, f.transform.vtable_id, frames),
            ) {
                Ok(refreshed) => pass_list(
                    evaluator,
                    nodes.insert(id, RenderNodeView::Frame(refreshed)),
                    marked,
                    frames,
                    id,
                    refreshed.children,
                ),
                Err(e) => PassOutcome { nodes, marked, failure: Some(e) },
            },
        }
    }
}

/// The property pass over `template`, once for each of `children` in order,
/// each time under one more frame that binds the child's index and datum.
pub open spec fn pass_repeat<E: Fn(u64, &Runtime) -> Option<TypedValue>>(
    evaluator: &E,
    nodes: Map<u64, RenderNodeView>,
    marked: Set<u64>,
    frames: Seq<StackFrameView>,
    bound: u64,
    template: Seq<u64>,
    children: Seq<RepeatFrame>,
) -> PassOutcome
    decreases bound, 1nat, children.len(),
{
    if children.len() == 0 {
        PassOutcome { nodes, marked, failure: None }
    } else {
        let before = pass_repeat(
            evaluator,
            nodes,
            marked,
            frames,
            bound,
            template,
            children.drop_last(),
        );
        if before.failure is Some {
            before
        } else {
            pass_list(
                evaluator,
                before.nodes,
                before.marked,
                frames.push(
                    StackFrameView { adoptees: template, scope: repeat_bindings(children.last()) },
                ),
                bound,
                template,
            )
        }
    }
}

/// The property pass over the nodes of `list`, in order, up to the first
/// failure. Only nodes with an id below `bound` are visited; in a
/// well-formed registry every child is.
pub open spec fn pass_list<E: Fn(u64, &Runtime) -> Option<TypedValue>>(
    evaluator: &E,
    nodes: Map<u64, RenderNodeView>,
    marked: Set<u64>,
    frames: Seq<StackFrameView>,
    bound: u64,
    list: Seq<u64>,
) -> PassOutcome
    decreases bound, 0nat, list.len(),
{
    if list.len() == 0 {
        PassOutcome { nodes, marked, failure: None }
    } else {
        let before = pass_list(evaluator, nodes, marked, frames, bound, list.drop_last());
        if before.failure is Some || list.last() >= bound {
            before
        } else {
            pass_node(evaluator, before.nodes, before.marked, frames, list.last())
        }
    }
}

/// A pass over a list that has failed stays as it is: the nodes after the
/// failure are not visited.
pub proof fn lemma_pass_list_error_sticks<E: Fn(u64, &Runtime) -> Option<TypedValue>>(
    evaluator: &E,
    nodes: Map<u64, RenderNodeView>,
    marked: Set<u64>,
    frames: Seq<StackFrameView>,
    bound: u64,
    list: Seq<u64>,
    k: int,
)
    requires
        0 <= k <= list.len(),
        pass_list(evaluator, nodes, marked, frames, bound, list.take(k)).failure is Some,
    ensures
        pass_list(evaluator, nodes, marked, frames, bound, list) == pass_list(
            evaluator,
            nodes,
            marked,
            frames,
            bound,
            list.take(k),
        ),
    decreases list.len(),
{
    if k == list.len() {
        assert(list.take(k) =~= list);
    } else {
        assert(list.drop_last().take(k) =~= list.take(k));
        lemma_pass_list_error_sticks(evaluator, nodes, marked, frames, bound, list.drop_last(), k);
    }
}

/// A pass over the children of a repeat that has failed stays as it is: the
/// children after the failure are not visited.
pub proof fn lemma_pass_repeat_error_sticks<E: Fn(u64, &Runtime) -> Option<TypedValue>>(
    evaluator: &E,
    nodes: Map<u64, RenderNodeView>,
    marked: Set<u64>,
    frames: Seq<StackFrameView>,
    bound: u64,
    template: Seq<u64>,
    children: Seq<RepeatFrame>,
    k: int,
)
    requires
        0 <= k <= children.len(),
        pass_repeat(evaluator, nodes, marked, frames, bound, template, children.take(k)).failure
            is Some,
    ensures
        pass_repeat(evaluator, nodes, marked, frames, bound, template, children) == pass_repeat(
            evaluator,
            nodes,
            marked,
            frames,
            bound,
            template,
            children.take(k),
        ),
    decreases children.len(),
{
    if k == children.len() {
        assert(children.take(k) =~= children);
    } else {
        assert(children.drop_last().take(k) =~= children.take(k));
        lemma_pass_repeat_error_sticks(
            evaluator,
            nodes,
            marked,
            frames,
            bound,
            template,
            children.drop_last(),
            k,
        );
    }
}

/// `after` agrees with `before` on every id from `from` on.
pub open spec fn same_from(
    before: Map<u64, RenderNodeView>,
    after: Map<u64, RenderNodeView>,
    from: int,
) -> bool {
    forall|k: u64|
        k >= from ==> {
            &&& #[trigger] after.contains_key(k) == before.contains_key(k)
            &&& before.contains_key(k) ==> after[k] == before[k]
        }
}

proof fn lemma_same_from_chain(
    a: Map<u64, RenderNodeView>,
    b: Map<u64, RenderNodeView>,
    c: Map<u64, RenderNodeView>,
    from_ab: int,
    from_bc: int,
    from: int,
)
    requires
        same_from(a, b, from_ab),
        same_from(b, c, from_bc),
        from >= from_ab,
        from >= from_bc,
    ensures
        same_from(a, c, from),
{
    assert forall|k: u64| k >= from implies {
        &&& #[trigger] c.contains_key(k) == a.contains_key(k)
        &&& a.contains_key(k) ==> c[k] == a[k]
    } by {
        assert(c.contains_key(k) == b.contains_key(k));
    }
}

/// What a conditional of a well-formed registry unmounts lies below it.
proof fn lemma_unmounted_lie_below(
    nodes: Map<u64, RenderNodeView>,
    next_id: u64,
    id: u64,
    selected: Option<bool>,
)
    requires
        nodes_wf(nodes, next_id),
        nodes.contains_key(id),
        nodes[id] is Conditional,
    ensures
        forall|k: u64| #[trigger]
            nodes[id]->Conditional_0.unmounted_by(nodes.remove(id), selected).contains(k) ==> k
                < id,
{
    let c = nodes[id]->Conditional_0;
    let shape = nodes[id].shape();
    assert(all_below(shape.links[0], id));
    assert(all_below(shape.links[1], id));
    assert(nodes_wf(nodes.remove(id), next_id));
    match selected {
        Some(b) => {
            lemma_beneath_branch_stays_below(nodes.remove(id), next_id, c.deselected(b), id);
        },
        None => {},
    }
}

/// A pass over a node of a well-formed registry leaves the registry well
/// formed and touches no node with a larger id.
pub proof fn lemma_pass_node_stays_below<E: Fn(u64, &Runtime) -> Option<TypedValue>>(
    evaluator: &E,
    nodes: Map<u64, RenderNodeView>,
    marked: Set<u64>,
    frames: Seq<StackFrameView>,
    id: u64,
    next_id: u64,
)
    requires
        nodes_wf(nodes, next_id),
    ensures
        nodes_wf(pass_node(evaluator, nodes, marked, frames, id).nodes, next_id),
        same_from(nodes, pass_node(evaluator, nodes, marked, frames, id).nodes, id + 1),
    decreases id, 2nat, 0nat,
{
    if marked.contains(id) || !nodes.contains_key(id) {
    } else {
        match nodes[id] {
            RenderNodeView::Component(c) => {
                let inner = frames.push(
                    StackFrameView { adoptees: c.adoptees, scope: c.properties },
                );
                lemma_pass_list_stays_below(evaluator, nodes, marked, inner, id, c.template, next_id);
                lemma_same_from_chain(
                    nodes,
                    nodes,
                    pass_list(evaluator, nodes, marked, inner, id, c.template).nodes,
                    id + 1,
                    id as int,
                    id + 1,
                );
            },
            RenderNodeView::Rectangle(r) => {
                match r.refreshed(
                    evaluated(evaluator, r.size.0.vtable_id, frames),
                    evaluated(evaluator, r.size.1.vtable_id, frames),
                    evaluated(evaluator, r.fill.vtable_id, frames),
                ) {
                    Ok(refreshed) => {},
                    Err(_) => {},
                }
            },
            RenderNodeView::Repeat(r) => {
                let visited = nodes.insert(id, RenderNodeView::Repeat(r.rematerialized()));
                lemma_pass_repeat_stays_below(
                    evaluator,
                    visited,
                    marked,
                    frames,
                    id,
                    r.children,
                    materialized(r.list),
                    next_id,
                );
                lemma_same_from_chain(
                    nodes,
                    visited,
                    pass_repeat(
                        evaluator,
                        visited,
                        marked,
                        frames,
                        id,
                        r.children,
                        materialized(r.list),
                    ).nodes,
                    id + 1,
                    id as int,
                    id + 1,
                );
            },
            RenderNodeView::Conditional(c) => {
                match selection_of(evaluated(evaluator, c.boolean_expression.vtable_id, frames)) {
                    Ok(selected) => {
                        let gone = c.unmounted_by(nodes.remove(id), selected);
                        let visited = nodes.remove_keys(gone).insert(
                            id,
                            RenderNodeView::Conditional(c.stepped(selected)),
                        );
                        lemma_unmounted_lie_below(nodes, next_id, id, selected);
                        lemma_pass_list_stays_below(
                            evaluator,
                            visited,
                            marked.union(gone),
                            frames,
                            id,
                            c.stepped(selected).rendering_children(),
                            next_id,
                        );
                        lemma_same_from_chain(
                            nodes,
                            visited,
                            pass_list(
                                evaluator,
                                visited,
                                marked.union(gone),
                                frames,
                                id,
                                c.stepped(selected).rendering_children(),
                            ).nodes,
                            id + 1,
                            id as int,
                            id + 1,
                        );
                    },
                    Err(_) => {},
                }
            },
            RenderNodeView::Frame(f) => {
                match f.refreshed(
                    evaluated(evaluator, f.size.0.vtable_id, frames),
                    evaluated(evaluator, f.size.1.vtable_id, frames),
                    evaluated(evaluator, f.transform.vtable_id, frames),
                ) {
                    Ok(refreshed) => {
                        let visited = nodes.insert(id, RenderNodeView::Frame(refreshed));
                        lemma_pass_list_stays_below(
                            evaluator,
                            visited,
                            marked,
                            frames,
                            id,
                            refreshed.children,
                            next_id,
                        );
                        lemma_same_from_chain(
                            nodes,
                            visited,
                            pass_list(evaluator, visited, marked, frames, id, refreshed.children).nodes,
                            id + 1,
                            id as int,
                            id + 1,
                        );
                    },
                    Err(_) => {},
                }
            },
        }
    }
}

proof fn lemma_pass_repeat_stays_below<E: Fn(u64, &Runtime) -> Option<TypedValue>>(
    evaluator: &E,
    nodes: Map<u64, RenderNodeView>,
    marked: Set<u64>,
    frames: Seq<StackFrameView>,
    bound: u64,
    template: Seq<u64>,
    children: Seq<RepeatFrame>,
    next_id: u64,
)
    requires
        nodes_wf(nodes, next_id),
    ensures
        nodes_wf(
            pass_repeat(evaluator, nodes, marked, frames, bound, template, children).nodes,
            next_id,
        ),
        same_from(
            nodes,
            pass_repeat(evaluator, nodes, marked, frames, bound, template, children).nodes,
            bound as int,
        ),
    decreases bound, 1nat, children.len(),
{
    if children.len() > 0 {
        lemma_pass_repeat_stays_below(
            evaluator,
            nodes,
            marked,
            frames,
            bound,
            template,
            children.drop_last(),
            next_id,
        );
        let before = pass_repeat(
            evaluator,
            nodes,
            marked,
            frames,
            bound,
            template,
            children.drop_last(),
        );
        if before.failure is None {
            let inner = frames.push(
                StackFrameView { adoptees: template, scope: repeat_bindings(children.last()) },
            );
            lemma_pass_list_stays_below(
                evaluator,
                before.nodes,
                before.marked,
                inner,
                bound,
                template,
                next_id,
            );
            lemma_same_from_chain(
                nodes,
                before.nodes,
                pass_list(evaluator, before.nodes, before.marked, inner, bound, template).nodes,
                bound as int,
                bound as int,
                bound as int,
            );
        }
    }
}

proof fn lemma_pass_list_stays_below<E: Fn(u64, &Runtime) -> Option<TypedValue>>(
    evaluator: &E,
    nodes: Map<u64, RenderNodeView>,
    marked: Set<u64>,
    frames: Seq<StackFrameView>,
    bound: u64,
    list: Seq<u64>,
    next_id: u64,
)
    requires
        nodes_wf(nodes, next_id),
    ensures
        nodes_wf(pass_list(evaluator, nodes, marked, frames, bound, list).nodes, next_id),
        same_from(
            nodes,
            pass_list(evaluator, nodes, marked, frames, bound, list).nodes,
            bound as int,
        ),
    decreases bound, 0nat, list.len(),
{
    if list.len() > 0 {
        lemma_pass_list_stays_below(
            evaluator,
            nodes,
            marked,
            frames,
            bound,
            list.drop_last(),
            next_id,
        );
        let before = pass_list(evaluator, nodes, marked, frames, bound, list.drop_last());
        if before.failure is None && list.last() < bound {
            lemma_pass_node_stays_below(
                evaluator,
                before.nodes,
                before.marked,
                frames,
                list.last(),
                next_id,
            );
            lemma_same_from_chain(
                nodes,
                before.nodes,
                pass_node(evaluator, before.nodes, before.marked, frames, list.last()).nodes,
                bound as int,
                list.last() + 1,
                bound as int,
            );
        }
    }
}

/// After a property pass over a repeat of a well-formed
/// registry, whatever the pass did beneath it and whether or not it failed
/// there, the repeat has as many materialized children as its list has
/// elements, in list order: the child at each position holds that position
/// as its index and the element found there as its datum. An empty list
/// gives no children.
pub proof fn lemma_pass_materializes_repeat<E: Fn(u64, &Runtime) -> Option<TypedValue>>(
    evaluator: &E,
    nodes: Map<u64, RenderNodeView>,
    marked: Set<u64>,
    frames: Seq<StackFrameView>,
    id: u64,
    next_id: u64,
)
    requires
        nodes_wf(nodes, next_id),
        nodes.contains_key(id),
        !marked.contains(id),
        nodes[id] is Repeat,
    ensures
        ({
            let before = nodes[id]->Repeat_0;
            let outcome = pass_node(evaluator, nodes, marked, frames, id);
            &&& outcome.nodes.contains_key(id)
            &&& outcome.nodes[id] == RenderNodeView::Repeat(before.rematerialized())
            &&& before.rematerialized().list == before.list
            &&& before.rematerialized().virtual_children.len() == before.list.len()
            &&& forall|i: int|
                0 <= i < before.list.len() ==> (
                #[trigger] before.rematerialized().virtual_children[i]) == (RepeatFrame {
                    i: i as usize,
                    datum: before.list[i],
                })
        }),
{
    let before = nodes[id]->Repeat_0;
    let visited = nodes.insert(id, RenderNodeView::Repeat(before.rematerialized()));
    lemma_pass_repeat_stays_below(
        evaluator,
        visited,
        marked,
        frames,
        id,
        before.children,
        materialized(before.list),
        next_id,
    );
    let after = pass_repeat(
        evaluator,
        visited,
        marked,
        frames,
        id,
        before.children,
        materialized(before.list),
    ).nodes;
    assert(after.contains_key(id) == visited.contains_key(id));
}

} // verus!
