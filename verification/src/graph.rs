//! The widget-tree graph of the window shell: nodes are allocated in
//! order, each node records its parent, and each parent keeps an ordered
//! list of children. A node whose parent is itself is unparented.

use vstd::prelude::*;

verus! {

/// A node identifier: the index the node was allocated at.
pub type Id = usize;

/// The widget tree structure: `children[n]` lists the children of node
/// `n` in order, `parent[n]` is the parent of node `n` (or `n` itself when
/// unparented). Both vectors always have one entry per allocated node.
pub struct Graph {
    pub root: Id,
    pub children: Vec<Vec<Id>>,
    pub parent: Vec<Id>,
}

impl Graph {
    /// Both tables cover the same nodes.
    pub open spec fn wf(&self) -> bool {
        self.children@.len() == self.parent@.len()
    }

    /// Allocate a fresh node: the next id, childless and unparented.
    pub fn alloc_node(&mut self) -> (id: Id)
        requires
            old(self).wf(),
            old(self).children@.len() < usize::MAX,
        ensures
            final(self).wf(),
            id == old(self).children@.len(),
            final(self).root == old(self).root,
            final(self).children@.len() == old(self).children@.len() + 1,
            forall|i: int| 0 <= i < id ==> final(self).children@[i] == old(self).children@[i],
            final(self).children@[id as int]@ == Seq::<Id>::empty(),
            final(self).parent@ == old(self).parent@.push(id),
    {
        let id = self.children.len();
        self.children.push(Vec::new());
        self.parent.push(id);
        id
    }

    /// Append `child` to the child list of `parent_id` and record the
    /// parent link.
    pub fn append_child(&mut self, parent_id: Id, child: Id)
        requires
            old(self).wf(),
            parent_id < old(self).children@.len(),
            child < old(self).parent@.len(),
        ensures
            final(self).wf(),
            final(self).root == old(self).root,
            final(self).children@.len() == old(self).children@.len(),
            final(self).children@[parent_id as int]@ == old(self).children@[
                parent_id as int
            ]@.push(child),
            forall|i: int|
                0 <= i < old(self).children@.len() && i != parent_id ==> final(self).children@[i]
                    == old(self).children@[i],
            final(self).parent@ == old(self).parent@.update(child as int, parent_id),
    {
        self.children[parent_id].push(child);
        self.parent[child] = parent_id;
    }

    /// Remove `child` from the child list of `parent_id`, leaving it
    /// unparented so it can be added again.
    pub fn remove_child(&mut self, parent_id: Id, child: Id)
        requires
            old(self).wf(),
            parent_id < old(self).children@.len(),
            child < old(self).parent@.len(),
            old(self).children@[parent_id as int]@.contains(child),
        ensures
            final(self).wf(),
            final(self).root == old(self).root,
            final(self).children@.len() == old(self).children@.len(),
            ({
                let elders = old(self).children@[parent_id as int]@;
                final(self).children@[parent_id as int]@ == elders.remove(
                    elders.index_of_first(child).unwrap(),
                )
            }),
            forall|i: int|
                0 <= i < old(self).children@.len() && i != parent_id ==> final(self).children@[i]
                    == old(self).children@[i],
            final(self).parent@ == old(self).parent@.update(child as int, child),
    {
        let list_len = self.children[parent_id].len();
        let mut ix: usize = 0;
        let ghost elders = self.children@[parent_id as int]@;
        while ix < list_len && self.children[parent_id][ix] != child
            invariant
                self == old(self),
                parent_id < self.children@.len(),
                list_len == elders.len(),
                elders == self.children@[parent_id as int]@,
                ix <= list_len,
                forall|j: int| 0 <= j < ix ==> elders[j] != child,
            decreases list_len - ix,
        {
            ix = ix + 1;
        }
        proof {
            assert(elders.contains(child));
            if ix == list_len {
                let witness = choose|w: int| 0 <= w < elders.len() && elders[w] == child;
                assert(elders[witness] == child);
                assert(false);
            }
            elders.index_of_first_ensures(child);
            assert(elders.index_of_first(child) == Some(ix as int));
        }
        let _ = self.children[parent_id].remove(ix);
        self.parent[child] = child;
    }
}

impl Default for Graph {
    /// An empty graph: no nodes, root id zero.
    fn default() -> (g: Graph)
        ensures
            g.wf(),
            g.root == 0,
            g.children@ == Seq::<Vec<Id>>::empty(),
            g.parent@ == Seq::<Id>::empty(),
    {
        Graph { root: 0, children: Vec::new(), parent: Vec::new() }
    }
}

} // verus!
