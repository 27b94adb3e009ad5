//! The identity registry: owner of every node, by instance id.

use std::collections::HashMap;
use std::collections::HashSet;
use vstd::prelude::*;
use crate::rendering::{all_below, RenderNode, RenderNodeView};

verus! {

/// Mints instance ids, holds the registered nodes by id, and remembers which
/// ids are to leave the drawn tree.
pub struct InstanceRegistry {
    pub instance_map: HashMap<u64, RenderNode>,
    pub marked_for_unmount_set: HashSet<u64>,
    pub next_id: u64,
}

/// Every registered id was minted, and every registered node refers only to
/// ids smaller than its own: children are minted before their parents.
pub open spec fn nodes_wf(nodes: Map<u64, RenderNodeView>, next_id: u64) -> bool {
    forall|id: u64| #[trigger]
        nodes.contains_key(id) ==> id < next_id && nodes[id].shape().links_below(id)
}

/// The instances beneath the node `id`: `id` itself and, if it is
/// registered, every instance beneath a node it refers to. The descent
/// follows a reference only to a smaller id; in a well-formed registry every
/// reference is one.
pub open spec fn beneath_node(nodes: Map<u64, RenderNodeView>, id: u64) -> Set<u64>
    decreases id, 1nat, 0nat,
{
    if nodes.contains_key(id) {
        beneath_list(nodes, id, nodes[id].linked()).insert(id)
    } else {
        set![id]
    }
}

/// The instances beneath the nodes of `list`, which a node with the id
/// `bound` refers to: every member, and every instance beneath a member that
/// is smaller than `bound`.
pub open spec fn beneath_list(nodes: Map<u64, RenderNodeView>, bound: u64, list: Seq<u64>) -> Set<
    u64,
>
    decreases bound, 0nat, list.len(),
{
    if list.len() == 0 {
        Set::empty()
    } else {
        beneath_list(nodes, bound, list.drop_last()).union(
            if list.last() < bound {
                beneath_node(nodes, list.last())
            } else {
                set![list.last()]
            },
        )
    }
}

/// All instances beneath a branch: its members and, recursively, every
/// registered node they refer to.
pub open spec fn beneath_branch(nodes: Map<u64, RenderNodeView>, branch: Seq<u64>) -> Set<u64>
    decreases branch.len(),
{
    if branch.len() == 0 {
        Set::empty()
    } else {
        beneath_branch(nodes, branch.drop_last()).union(beneath_node(nodes, branch.last()))
    }
}

/// What a map of nodes holds.
pub open spec fn nodes_view(nodes: Map<u64, RenderNode>) -> Map<u64, RenderNodeView> {
    nodes.map_values(|n: RenderNode| n@)
}

impl InstanceRegistry {
    /// The registered nodes, by instance id.
    pub open spec fn nodes(&self) -> Map<u64, RenderNodeView> {
        nodes_view(self.instance_map@)
    }

    /// The ids marked for unmount.
    pub open spec fn marked(&self) -> Set<u64> {
        self.marked_for_unmount_set@
    }

    /// Every registered id was minted, and every registered node refers to
    /// smaller ids only. A registry that is filled through `instantiate`,
    /// or through `register` with children minted before their parents, is
    /// well formed. The passes go down only to smaller ids: what an
    /// ill-formed registry holds under a larger id than its parent's they
    /// leave out.
    pub open spec fn wf(&self) -> bool {
        nodes_wf(self.nodes(), self.next_id)
    }

    /// A registry that has minted no id.
    pub fn new() -> (r: InstanceRegistry)
        ensures
            r.wf(),
            r.nodes() == Map::<u64, RenderNodeView>::empty(),
            r.marked() == Set::<u64>::empty(),
            r.next_id == 0,
    {
        let r = InstanceRegistry {
            instance_map: HashMap::new(),
            marked_for_unmount_set: HashSet::new(),
            next_id: 0,
        };
        r
    }

    /// Returns an id that was never returned before: ids count up from zero.
    pub fn mint_id(&mut self) -> (id: u64)
        requires
            old(self).next_id < u64::MAX,
        ensures
            id == old(self).next_id,
            final(self).next_id == id + 1,
            final(self).nodes() == old(self).nodes(),
            final(self).marked() == old(self).marked(),
            old(self).wf() ==> final(self).wf(),
    {
        let id: u64 = self.next_id;
        self.next_id = id + 1;
        id
    }

    /// Stores `node` under `id`, which must not be registered. The registry
    /// stays well formed if `id` was minted and `node` refers to smaller ids
    /// only.
    pub fn register(&mut self, id: u64, node: RenderNode)
        requires
            !old(self).nodes().contains_key(id),
        ensures
            final(self).nodes() == old(self).nodes().insert(id, node@),
            final(self).marked() == old(self).marked(),
            final(self).next_id == old(self).next_id,
            old(self).wf() && id < old(self).next_id && node@.shape().links_below(id)
                ==> final(self).wf(),
    {
        self.instance_map.insert(id, node);
    }

    /// Removes what is registered under `id`; does nothing where `id` is not
    /// registered.
    pub fn deregister(&mut self, id: u64)
        ensures
            final(self).nodes() == old(self).nodes().remove(id),
            final(self).marked() == old(self).marked(),
            final(self).next_id == old(self).next_id,
            old(self).wf() ==> final(self).wf(),
    {
        self.instance_map.remove(&id);
    }

    /// Flags `id` to leave the drawn tree. The node itself is not touched.
    pub fn mark_for_unmount(&mut self, id: u64)
        ensures
            final(self).marked() == old(self).marked().insert(id),
            final(self).nodes() == old(self).nodes(),
            final(self).next_id == old(self).next_id,
    {
        self.marked_for_unmount_set.insert(id);
    }

    /// Whether a node is registered under `id`.
    pub fn is_registered(&self, id: u64) -> (r: bool)
        ensures
            r == self.nodes().contains_key(id),
    {
        self.instance_map.contains_key(&id)
    }

    /// Whether `id` is flagged to leave the drawn tree.
    pub fn is_marked_for_unmount(&self, id: u64) -> (r: bool)
        ensures
            r == self.marked().contains(id),
    {
        self.marked_for_unmount_set.contains(&id)
    }

    /// The node registered under `id`.
    pub fn get(&self, id: u64) -> (node: Option<&RenderNode>)
        ensures
            match node {
                Some(n) => self.nodes().contains_key(id) && n@ == self.nodes()[id],
                None => !self.nodes().contains_key(id),
            },
    {
        self.instance_map.get(&id)
    }

    /// Removes and returns the node registered under `id`.
    pub fn take(&mut self, id: u64) -> (node: Option<RenderNode>)
        ensures
            match node {
                Some(n) => old(self).nodes().contains_key(id) && n@ == old(self).nodes()[id],
                None => !old(self).nodes().contains_key(id),
            },
            final(self).nodes() == old(self).nodes().remove(id),
            final(self).marked() == old(self).marked(),
            final(self).next_id == old(self).next_id,
            old(self).wf() ==> final(self).wf(),
    {
        let node = self.instance_map.remove(&id);
        node
    }

    /// Adds the instances beneath the node `id` to `out`.
    fn collect_beneath_node(&self, id: u64, out: &mut Vec<u64>)
        ensures
            final(out)@.to_set() == old(out)@.to_set().union(beneath_node(self.nodes(), id)),
        decreases id, 1nat,
    {
        proof {
            lemma_push_to_set(out@, id);
        }
        out.push(id);
        match self.get(id) {
            Some(node) => {
                let linked: Vec<u64> = node.get_linked();
                self.collect_beneath_list(id, &linked, out);
                assert(out@.to_set() =~= old(out)@.to_set().union(
                    beneath_node(self.nodes(), id),
                ));
            },
            None => {
                assert(out@.to_set() =~= old(out)@.to_set().union(
                    beneath_node(self.nodes(), id),
                ));
            },
        }
    }

    /// Adds the instances beneath the nodes of `list` to `out`.
    fn collect_beneath_list(&self, bound: u64, list: &Vec<u64>, out: &mut Vec<u64>)
        ensures
            final(out)@.to_set() == old(out)@.to_set().union(
                beneath_list(self.nodes(), bound, list@),
            ),
        decreases bound, 0nat,
    {
        let mut k: usize = 0;
        assert(out@.to_set() =~= old(out)@.to_set().union(
            beneath_list(self.nodes(), bound, list@.take(0)),
        ));
        while k < list.len()
            invariant
                k <= list.len(),
                out@.to_set() == old(out)@.to_set().union(
                    beneath_list(self.nodes(), bound, list@.take(k as int)),
                ),
            decreases list.len() - k,
        {
            let member: u64 = list[k];
            let ghost so_far = out@.to_set();
            proof {
                assert(list@.take(k + 1).drop_last() =~= list@.take(k as int));
            }
            if member < bound {
                self.collect_beneath_node(member, out);
            } else {
                proof {
                    lemma_push_to_set(out@, member);
                }
                out.push(member);
                assert(out@.to_set() =~= so_far.union(set![member]));
            }
            assert(out@.to_set() =~= old(out)@.to_set().union(
                beneath_list(self.nodes(), bound, list@.take(k + 1)),
            ));
            k = k + 1;
        }
        assert(list@.take(k as int) =~= list@);
    }

    /// All instances beneath `branch`: its members and, recursively, every
    /// registered node they refer to. An instance may be listed more than
    /// once.
    pub fn instances_beneath(&self, branch: &Vec<u64>) -> (ids: Vec<u64>)
        ensures
            ids@.to_set() == beneath_branch(self.nodes(), branch@),
    {
        let mut ids: Vec<u64> = Vec::new();
        let mut k: usize = 0;
        assert(ids@.to_set() =~= beneath_branch(self.nodes(), branch@.take(0)));
        while k < branch.len()
            invariant
                k <= branch.len(),
                ids@.to_set() == beneath_branch(self.nodes(), branch@.take(k as int)),
            decreases branch.len() - k,
        {
            proof {
                assert(branch@.take(k + 1).drop_last() =~= branch@.take(k as int));
            }
            self.collect_beneath_node(branch[k], &mut ids);
            k = k + 1;
        }
        assert(branch@.take(k as int) =~= branch@);
        ids
    }

    /// Unmounts a branch: deregisters every instance beneath it and marks it
    /// for unmount.
    pub fn unmount_beneath(&mut self, branch: &Vec<u64>)
        ensures
            final(self).nodes() == old(self).nodes().remove_keys(
                beneath_branch(old(self).nodes(), branch@),
            ),
            final(self).marked() == old(self).marked().union(
                beneath_branch(old(self).nodes(), branch@),
            ),
            final(self).next_id == old(self).next_id,
            old(self).wf() ==> final(self).wf(),
    {
        let ids: Vec<u64> = self.instances_beneath(branch);
        self.unmount_all(&ids);
    }

    /// Deregisters every node of `ids` and marks it for unmount.
    pub fn unmount_all(&mut self, ids: &Vec<u64>)
        ensures
            final(self).nodes() == old(self).nodes().remove_keys(ids@.to_set()),
            final(self).marked() == old(self).marked().union(ids@.to_set()),
            final(self).next_id == old(self).next_id,
            old(self).wf() ==> final(self).wf(),
    {
        let mut i: usize = 0;
        while i < ids.len()
            invariant
                i <= ids.len(),
                self.nodes() == old(self).nodes().remove_keys(ids@.take(i as int).to_set()),
                self.marked() == old(self).marked().union(ids@.take(i as int).to_set()),
                self.next_id == old(self).next_id,
                old(self).wf() ==> self.wf(),
            decreases ids.len() - i,
        {
            let id: u64 = ids[i];
            proof {
                lemma_take_to_set_grows(ids@, i as int);
            }
            self.deregister(id);
            self.mark_for_unmount(id);
            i = i + 1;
        }
        assert(ids@.take(i as int) =~= ids@);
    }
}

/// A node of a well-formed registry refers to smaller ids only.
pub proof fn lemma_linked_lie_below(nodes: Map<u64, RenderNodeView>, next_id: u64, id: u64)
    requires
        nodes_wf(nodes, next_id),
        nodes.contains_key(id),
    ensures
        all_below(nodes[id].linked(), id),
{
    let shape = nodes[id].shape();
    match nodes[id] {
        RenderNodeView::Conditional(c) => {
            assert(all_below(shape.links[0], id));
            assert(all_below(shape.links[1], id));
        },
        RenderNodeView::Rectangle(_) => {},
        _ => {
            assert(all_below(shape.links[0], id));
        },
    }
}

/// A member of a list that is smaller than the bound is beneath the list.
pub proof fn lemma_list_member_is_beneath(
    nodes: Map<u64, RenderNodeView>,
    bound: u64,
    list: Seq<u64>,
    j: int,
)
    requires
        0 <= j < list.len(),
    ensures
        beneath_list(nodes, bound, list).contains(list[j]),
    decreases list.len(),
{
    if j < list.len() - 1 {
        lemma_list_member_is_beneath(nodes, bound, list.drop_last(), j);
    } else {
        assert(beneath_node(nodes, list.last()).contains(list.last()));
    }
}

/// In a well-formed registry the instances beneath a node are all of its
/// subtree: with every registered instance beneath it, every node that this
/// instance refers to is beneath it too.
pub proof fn lemma_beneath_node_is_closed(
    nodes: Map<u64, RenderNodeView>,
    next_id: u64,
    id: u64,
    k: u64,
    j: int,
)
    requires
        nodes_wf(nodes, next_id),
        beneath_node(nodes, id).contains(k),
        nodes.contains_key(k),
        0 <= j < nodes[k].linked().len(),
    ensures
        beneath_node(nodes, id).contains(nodes[k].linked()[j]),
    decreases id, 1nat, 0nat,
{
    if k == id {
        lemma_list_member_is_beneath(nodes, id, nodes[id].linked(), j);
    } else {
        lemma_linked_lie_below(nodes, next_id, id);
        lemma_beneath_list_is_closed(nodes, next_id, id, nodes[id].linked(), k, j);
    }
}

/// In a well-formed registry the instances beneath a list of smaller ids
/// are all of its subtrees.
pub proof fn lemma_beneath_list_is_closed(
    nodes: Map<u64, RenderNodeView>,
    next_id: u64,
    bound: u64,
    list: Seq<u64>,
    k: u64,
    j: int,
)
    requires
        nodes_wf(nodes, next_id),
        all_below(list, bound),
        beneath_list(nodes, bound, list).contains(k),
        nodes.contains_key(k),
        0 <= j < nodes[k].linked().len(),
    ensures
        beneath_list(nodes, bound, list).contains(nodes[k].linked()[j]),
    decreases bound, 0nat, list.len(),
{
    if list.len() > 0 {
        assert(list.last() < bound);
        if beneath_list(nodes, bound, list.drop_last()).contains(k) {
            lemma_beneath_list_is_closed(nodes, next_id, bound, list.drop_last(), k, j);
        } else {
            lemma_beneath_node_is_closed(nodes, next_id, list.last(), k, j);
        }
    }
}

/// In a well-formed registry the instances beneath a branch are all of its
/// subtrees: its members, every node they refer to, and so on down.
pub proof fn lemma_beneath_branch_is_closed(
    nodes: Map<u64, RenderNodeView>,
    next_id: u64,
    branch: Seq<u64>,
    k: u64,
    j: int,
)
    requires
        nodes_wf(nodes, next_id),
        beneath_branch(nodes, branch).contains(k),
        nodes.contains_key(k),
        0 <= j < nodes[k].linked().len(),
    ensures
        beneath_branch(nodes, branch).contains(nodes[k].linked()[j]),
    decreases branch.len(),
{
    if branch.len() > 0 {
        if beneath_branch(nodes, branch.drop_last()).contains(k) {
            lemma_beneath_branch_is_closed(nodes, next_id, branch.drop_last(), k, j);
        } else {
            lemma_beneath_node_is_closed(nodes, next_id, branch.last(), k, j);
        }
    }
}

/// The instances beneath a node of a well-formed registry have no larger id
/// than the node.
pub proof fn lemma_beneath_node_stays_below(
    nodes: Map<u64, RenderNodeView>,
    next_id: u64,
    id: u64,
)
    requires
        nodes_wf(nodes, next_id),
    ensures
        forall|k: u64| #[trigger] beneath_node(nodes, id).contains(k) ==> k <= id,
    decreases id, 1nat, 0nat,
{
    if nodes.contains_key(id) {
        lemma_linked_lie_below(nodes, next_id, id);
        lemma_beneath_list_stays_below(nodes, next_id, id, nodes[id].linked(), id);
        let below = beneath_list(nodes, id, nodes[id].linked());
        assert forall|k: u64| #[trigger] beneath_node(nodes, id).contains(k) implies k <= id by {
            if k != id {
                assert(below.contains(k));
            }
        }
    }
}

/// The instances beneath a list of a well-formed registry lie below every
/// limit that the members of the list lie below.
pub proof fn lemma_beneath_list_stays_below(
    nodes: Map<u64, RenderNodeView>,
    next_id: u64,
    bound: u64,
    list: Seq<u64>,
    limit: u64,
)
    requires
        nodes_wf(nodes, next_id),
        all_below(list, limit),
    ensures
        forall|k: u64| #[trigger] beneath_list(nodes, bound, list).contains(k) ==> k < limit,
    decreases bound, 0nat, list.len(),
{
    if list.len() > 0 {
        lemma_beneath_list_stays_below(nodes, next_id, bound, list.drop_last(), limit);
        assert(list.last() < limit);
        if list.last() < bound {
            lemma_beneath_node_stays_below(nodes, next_id, list.last());
        }
        let before = beneath_list(nodes, bound, list.drop_last());
        let last = if list.last() < bound {
            beneath_node(nodes, list.last())
        } else {
            set![list.last()]
        };
        assert forall|k: u64| #[trigger] beneath_list(nodes, bound, list).contains(k) implies k
            < limit by {
            assert(before.contains(k) || last.contains(k));
        }
    }
}

/// The instances beneath a branch of a well-formed registry lie below every
/// limit that the members of the branch lie below.
pub proof fn lemma_beneath_branch_stays_below(
    nodes: Map<u64, RenderNodeView>,
    next_id: u64,
    branch: Seq<u64>,
    limit: u64,
)
    requires
        nodes_wf(nodes, next_id),
        all_below(branch, limit),
    ensures
        forall|k: u64| #[trigger] beneath_branch(nodes, branch).contains(k) ==> k < limit,
    decreases branch.len(),
{
    if branch.len() > 0 {
        lemma_beneath_branch_stays_below(nodes, next_id, branch.drop_last(), limit);
        assert(branch.last() < limit);
        lemma_beneath_node_stays_below(nodes, next_id, branch.last());
        let before = beneath_branch(nodes, branch.drop_last());
        let last = beneath_node(nodes, branch.last());
        assert forall|k: u64| #[trigger] beneath_branch(nodes, branch).contains(k) implies k
            < limit by {
            assert(before.contains(k) || last.contains(k));
        }
    }
}

/// Every member of a branch is beneath it.
pub proof fn lemma_members_are_beneath(nodes: Map<u64, RenderNodeView>, branch: Seq<u64>, i: int)
    requires
        0 <= i < branch.len(),
    ensures
        beneath_branch(nodes, branch).contains(branch[i]),
    decreases branch.len(),
{
    if i < branch.len() - 1 {
        lemma_members_are_beneath(nodes, branch.drop_last(), i);
    }
}

/// One element more in a list is one element more in its set.
pub proof fn lemma_push_to_set(s: Seq<u64>, x: u64)
    ensures
        s.push(x).to_set() == s.to_set().insert(x),
{
    assert(s.push(x).take(s.len() as int) =~= s);
    assert(s.push(x).take(s.len() as int + 1) =~= s.push(x));
    lemma_take_to_set_grows(s.push(x), s.len() as int);
}

/// One element more in a prefix is one element more in its set.
pub proof fn lemma_take_to_set_grows(s: Seq<u64>, i: int)
    requires
        0 <= i < s.len(),
    ensures
        s.take(i + 1).to_set() == s.take(i).to_set().insert(s[i]),
{
    let longer = s.take(i + 1);
    let shorter = s.take(i);
    assert forall|x: u64| longer.to_set().contains(x) <==> shorter.to_set().insert(s[i]).contains(
        x,
    ) by {
        if longer.contains(x) {
            let j = choose|j: int| 0 <= j < longer.len() && longer[j] == x;
        }
        if shorter.contains(x) {
            let j = choose|j: int| 0 <= j < shorter.len() && shorter[j] == x;
        }
        if x == s[i] {
            assert(longer[i] == x);
        }
    }
}

} // verus!
