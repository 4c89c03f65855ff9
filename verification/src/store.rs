//! The registry of nodes.

use vstd::prelude::*;
use crate::node::{NewNode, NewNodeView, Node, NodeView};

verus! {

/// What a list of nodes is.
pub open spec fn rows_view(rows: Seq<Node>) -> Seq<NodeView> {
    rows.map_values(|n: Node| n@)
}

/// What a list of nodes that are to be added is.
pub open spec fn news_view(news: Seq<NewNode>) -> Seq<NewNodeView> {
    news.map_values(|n: NewNode| n@)
}

/// Every node's id is its place in the registry, and its ports are numbered.
pub open spec fn rows_wf(rows: Seq<NodeView>) -> bool {
    forall|i: int| 0 <= i < rows.len() ==> (#[trigger] rows[i]).id == i && rows[i].wf()
}

/// The registry after `new` was added: it stands last, under the first id that
/// no node has yet.
pub open spec fn added(rows: Seq<NodeView>, new: NewNodeView) -> Seq<NodeView> {
    rows.push(new.with_id(rows.len()))
}

/// The registry after the node `id` was put at `(x, y)`. Without such a node
/// nothing changes.
pub open spec fn moved(rows: Seq<NodeView>, id: int, x: int, y: int) -> Seq<NodeView> {
    if 0 <= id < rows.len() {
        rows.update(id, rows[id].at(x, y))
    } else {
        rows
    }
}

/// The registry that holds `news` and nothing else, added in their order.
pub open spec fn seeded(news: Seq<NewNodeView>) -> Seq<NodeView> {
    Seq::new(news.len(), |i: int| news[i].with_id(i as nat))
}

/// The nodes of the graph in the order in which they were added. A node's id is
/// its place in that order, so ids are never used twice and a node is found by
/// its id in one step.
pub struct NodeStore {
    rows: Vec<Node>,
}

impl View for NodeStore {
    type V = Seq<NodeView>;

    closed spec fn view(&self) -> Seq<NodeView> {
        rows_view(self.rows@)
    }
}

impl NodeStore {
    /// What every registry made and changed by the functions below satisfies.
    pub open spec fn wf(&self) -> bool {
        rows_wf(self@)
    }

    /// The registry without nodes.
    pub fn new() -> (store: NodeStore)
        ensures
            store@ == Seq::<NodeView>::empty(),
            store.wf(),
    {
        let store = NodeStore { rows: Vec::new() };
        assert(store@ =~= Seq::<NodeView>::empty());
        store
    }

    /// The registry that holds `news`, under the ids 0, 1, 2 and so on.
    pub fn seeded(news: Vec<NewNode>) -> (store: NodeStore)
        ensures
            store@ == seeded(news_view(news@)),
            store.wf(),
    {
        let mut store = NodeStore::new();
        for new in it: news.into_iter()
            invariant
                it.seq() == news@,
                store.wf(),
                store@.len() == it.index(),
                forall|i: int|
                    0 <= i < store@.len() ==> #[trigger] store@[i] == news@[i]@.with_id(i as nat),
        {
            store.add(new);
        }
        assert(store@ =~= seeded(news_view(news@)));
        store
    }

    /// Adds the node that `new` describes and returns its id.
    pub fn add(&mut self, new: NewNode) -> (id: usize)
        requires
            old(self).wf(),
        ensures
            final(self)@ == added(old(self)@, new@),
            id == old(self)@.len(),
            final(self).wf(),
    {
        let id = self.rows.len();
        let node = Node::new(id, new);
        self.rows.push(node);
        assert(self@ =~= added(old(self)@, new@));
        id
    }

    /// Puts the node `id` at `(x, y)`. Where no node has that id, nothing happens.
    pub fn set_position(&mut self, id: usize, x: i32, y: i32)
        requires
            old(self).wf(),
        ensures
            final(self)@ == moved(old(self)@, id as int, x as int, y as int),
            final(self).wf(),
    {
        if id < self.rows.len() {
            self.rows[id].x = x;
            self.rows[id].y = y;
            assert(self@ =~= moved(old(self)@, id as int, x as int, y as int));
        }
    }

    /// The node `id`, where there is one.
    pub fn get(&self, id: usize) -> (found: Option<&Node>)
        requires
            self.wf(),
        ensures
            match found {
                Some(node) => id < self@.len() && node@ == self@[id as int] && node.id == id,
                None => id >= self@.len(),
            },
    {
        if id < self.rows.len() {
            Some(&self.rows[id])
        } else {
            None
        }
    }

    /// All nodes, in the order in which they were added.
    pub fn all(&self) -> (rows: &Vec<Node>)
        ensures
            rows_view(rows@) == self@,
    {
        &self.rows
    }

    /// The number of nodes, which is also the id that the next node will get.
    pub fn len(&self) -> (n: usize)
        ensures
            n == self@.len(),
    {
        self.rows.len()
    }
}

} // verus!
