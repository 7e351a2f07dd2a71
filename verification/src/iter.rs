//! Walking a tree: along one kind of neighbour, over the children of a node,
//! and through a subtree in document order.
//!
//! A walker is moved one step at a time with its `next`. The functions that
//! gather a whole walk into a vector stop after as many steps as a tree of
//! the given size can take, so they end on any arrangement of the nodes.

use vstd::prelude::*;
use crate::tree::{links_at, node_ref, Links, Node, NodeId, NodeRef, Tree};

verus! {

/// The neighbour that a walk moves to.
#[derive(Clone, Copy, Debug, PartialEq, Eq, Structural)]
pub enum Toward {
    Parent,
    PrevSibling,
    NextSibling,
    FirstChild,
    LastChild,
}

/// The neighbour of a node in a direction.
pub open spec fn neighbour(links: Links, toward: Toward) -> NodeId {
    match toward {
        Toward::Parent => links.parent,
        Toward::PrevSibling => links.prev_sibling,
        Toward::NextSibling => links.next_sibling,
        Toward::FirstChild => links.children.0,
        Toward::LastChild => links.children.1,
    }
}

/// The node that follows a node in a direction, if there is one.
pub open spec fn step<T>(m: Map<NodeId, Node<T>>, at: Option<NodeRef>, toward: Toward) -> Option<
    NodeRef,
> {
    match at {
        Some(n) => node_ref(m, neighbour(links_at(m, n.id), toward)),
        None => None,
    }
}

/// The nodes that a walk visits from `at` on, at most `fuel` of them.
pub open spec fn chain<T>(
    m: Map<NodeId, Node<T>>,
    at: Option<NodeRef>,
    toward: Toward,
    fuel: nat,
) -> Seq<NodeRef>
    decreases fuel,
{
    if fuel == 0 || at is None {
        Seq::<NodeRef>::empty()
    } else {
        seq![at->Some_0] + chain(m, step(m, at, toward), toward, (fuel - 1) as nat)
    }
}

/// A walk along one kind of neighbour.
#[derive(Clone, Copy, Debug, PartialEq, Eq, Structural)]
pub struct Walk {
    pub toward: Toward,
    pub at: Option<NodeRef>,
}

fn neighbour_of<T>(tree: &Tree<T>, node: NodeRef, toward: Toward) -> (found: Option<NodeRef>)
    requires
        tree.wf(),
    ensures
        found == step(tree@, Some(node), toward),
{
    match toward {
        Toward::Parent => node.parent(tree),
        Toward::PrevSibling => node.prev_sibling(tree),
        Toward::NextSibling => node.next_sibling(tree),
        Toward::FirstChild => node.first_child(tree),
        Toward::LastChild => node.last_child(tree),
    }
}

impl Walk {
    /// Hands out the node the walk is at and moves on to its neighbour.
    pub fn next<T>(&mut self, tree: &Tree<T>) -> (node: Option<NodeRef>)
        requires
            tree.wf(),
        ensures
            node == old(self).at,
            final(self).toward == old(self).toward,
            final(self).at == step(tree@, old(self).at, old(self).toward),
    {
        let node = self.at;
        self.at = match node {
            Some(n) => neighbour_of(tree, n, self.toward),
            None => None,
        };
        node
    }

    /// Gathers the rest of the walk.
    pub fn collect<T>(self, tree: &Tree<T>) -> (nodes: Vec<NodeRef>)
        requires
            tree.wf(),
        ensures
            nodes@ == chain(tree@, self.at, self.toward, tree.size()),
    {
        let mut walk = self;
        let mut nodes: Vec<NodeRef> = Vec::new();
        let limit = tree.len();
        let mut taken: usize = 0;
        while taken < limit && walk.at.is_some()
            invariant
                tree.wf(),
                taken <= limit,
                limit == tree.size(),
                walk.toward == self.toward,
                chain(tree@, self.at, self.toward, limit as nat) == nodes@ + chain(
                    tree@,
                    walk.at,
                    walk.toward,
                    (limit - taken) as nat,
                ),
            decreases limit - taken,
        {
            let ghost before = walk;
            let ghost had = nodes@;
            let node = walk.next(tree);
            match node {
                Some(n) => {
                    nodes.push(n);
                },
                None => {},
            }
            taken = taken + 1;
            assert(nodes@ + chain(tree@, walk.at, walk.toward, (limit - taken) as nat) =~= had
                + chain(tree@, before.at, before.toward, (limit - taken + 1) as nat));
        }
        assert(chain(tree@, walk.at, walk.toward, (limit - taken) as nat) =~= Seq::<
            NodeRef,
        >::empty());
        nodes
    }
}

/// A walk over the children of a node, from either end.
#[derive(Clone, Copy, Debug, PartialEq, Eq, Structural)]
pub struct Children {
    pub front: Option<NodeRef>,
    pub back: Option<NodeRef>,
}

impl Children {
    /// Hands out the first child that is left. The walk is over once its two
    /// ends have met.
    pub fn next<T>(&mut self, tree: &Tree<T>) -> (node: Option<NodeRef>)
        requires
            tree.wf(),
        ensures
            node == old(self).front,
            *final(self) == if old(self).front == old(self).back {
                Children { front: None, back: None }
            } else {
                Children {
                    front: step(tree@, old(self).front, Toward::NextSibling),
                    back: old(self).back,
                }
            },
    {
        let node = self.front;
        if self.front == self.back {
            self.front = None;
            self.back = None;
        } else {
            self.front = match node {
                Some(n) => n.next_sibling(tree),
                None => None,
            };
        }
        node
    }

    /// Hands out the last child that is left.
    pub fn next_back<T>(&mut self, tree: &Tree<T>) -> (node: Option<NodeRef>)
        requires
            tree.wf(),
        ensures
            node == old(self).back,
            *final(self) == if old(self).front == old(self).back {
                Children { front: None, back: None }
            } else {
                Children {
                    front: old(self).front,
                    back: step(tree@, old(self).back, Toward::PrevSibling),
                }
            },
    {
        let node = self.back;
        if self.back == self.front {
            self.front = None;
            self.back = None;
        } else {
            self.back = match node {
                Some(n) => n.prev_sibling(tree),
                None => None,
            };
        }
        node
    }

    /// Gathers the children that are left, first to last.
    pub fn collect<T>(self, tree: &Tree<T>) -> (nodes: Vec<NodeRef>)
        requires
            tree.wf(),
        ensures
            nodes@ == children_from(tree@, self, tree.size()),
    {
        let mut walk = self;
        let mut nodes: Vec<NodeRef> = Vec::new();
        let limit = tree.len();
        let mut taken: usize = 0;
        while taken < limit && walk.front.is_some()
            invariant
                tree.wf(),
                taken <= limit,
                limit == tree.size(),
                children_from(tree@, self, limit as nat) == nodes@ + children_from(
                    tree@,
                    walk,
                    (limit - taken) as nat,
                ),
            decreases limit - taken,
        {
            let ghost before = walk;
            let ghost had = nodes@;
            let node = walk.next(tree);
            match node {
                Some(n) => {
                    nodes.push(n);
                },
                None => {},
            }
            taken = taken + 1;
            assert(nodes@ + children_from(tree@, walk, (limit - taken) as nat) =~= had
                + children_from(tree@, before, (limit - taken + 1) as nat));
        }
        assert(children_from(tree@, walk, (limit - taken) as nat) =~= Seq::<NodeRef>::empty());
        nodes
    }

    /// Gathers the children that are left, last to first.
    pub fn collect_rev<T>(self, tree: &Tree<T>) -> (nodes: Vec<NodeRef>)
        requires
            tree.wf(),
        ensures
            nodes@ == children_from_back(tree@, self, tree.size()),
    {
        let mut walk = self;
        let mut nodes: Vec<NodeRef> = Vec::new();
        let limit = tree.len();
        let mut taken: usize = 0;
        while taken < limit && walk.back.is_some()
            invariant
                tree.wf(),
                taken <= limit,
                limit == tree.size(),
                children_from_back(tree@, self, limit as nat) == nodes@ + children_from_back(
                    tree@,
                    walk,
                    (limit - taken) as nat,
                ),
            decreases limit - taken,
        {
            let ghost before = walk;
            let ghost had = nodes@;
            let node = walk.next_back(tree);
            match node {
                Some(n) => {
                    nodes.push(n);
                },
                None => {},
            }
            taken = taken + 1;
            assert(nodes@ + children_from_back(tree@, walk, (limit - taken) as nat) =~= had
                + children_from_back(tree@, before, (limit - taken + 1) as nat));
        }
        assert(children_from_back(tree@, walk, (limit - taken) as nat) =~= Seq::<
            NodeRef,
        >::empty());
        nodes
    }
}

/// The children that a walk hands out from its front, at most `fuel` of them.
pub open spec fn children_from<T>(m: Map<NodeId, Node<T>>, walk: Children, fuel: nat) -> Seq<
    NodeRef,
>
    decreases fuel,
{
    if fuel == 0 || walk.front is None {
        Seq::<NodeRef>::empty()
    } else {
        let rest = if walk.front == walk.back {
            Children { front: None, back: None }
        } else {
            Children { front: step(m, walk.front, Toward::NextSibling), back: walk.back }
        };
        seq![walk.front->Some_0] + children_from(m, rest, (fuel - 1) as nat)
    }
}

/// The children that a walk hands out from its back, at most `fuel` of them.
pub open spec fn children_from_back<T>(m: Map<NodeId, Node<T>>, walk: Children, fuel: nat) -> Seq<
    NodeRef,
>
    decreases fuel,
{
    if fuel == 0 || walk.back is None {
        Seq::<NodeRef>::empty()
    } else {
        let rest = if walk.front == walk.back {
            Children { front: None, back: None }
        } else {
            Children { front: walk.front, back: step(m, walk.back, Toward::PrevSibling) }
        };
        seq![walk.back->Some_0] + children_from_back(m, rest, (fuel - 1) as nat)
    }
}

/// Open or close edge of a node.
#[derive(Clone, Copy, Debug, PartialEq, Eq, Structural)]
pub enum Edge {
    /// The walk enters the node.
    Open(NodeRef),
    /// The walk leaves the node.
    Close(NodeRef),
}

/// The edge that follows an edge in the walk through the subtree of `root`:
/// into the first child or, without one, out of the node; after a node, into
/// its next sibling or, without one, out of its parent. The walk begins by
/// entering the root and is over after leaving it.
pub open spec fn next_edge<T>(m: Map<NodeId, Node<T>>, root: NodeRef, edge: Option<Edge>) -> Option<
    Edge,
> {
    match edge {
        None => Some(Edge::Open(root)),
        Some(Edge::Open(node)) => match step(m, Some(node), Toward::FirstChild) {
            Some(child) => Some(Edge::Open(child)),
            None => Some(Edge::Close(node)),
        },
        Some(Edge::Close(node)) => if node == root {
            None
        } else {
            match step(m, Some(node), Toward::NextSibling) {
                Some(sibling) => Some(Edge::Open(sibling)),
                None => match step(m, Some(node), Toward::Parent) {
                    Some(parent) => Some(Edge::Close(parent)),
                    None => None,
                },
            }
        },
    }
}

/// The edges that a walk through a subtree gives after `edge`, at most `fuel` of them.
pub open spec fn edges<T>(m: Map<NodeId, Node<T>>, root: NodeRef, edge: Option<Edge>, fuel: nat) -> Seq<
    Edge,
>
    decreases fuel,
{
    if fuel == 0 {
        Seq::<Edge>::empty()
    } else {
        match next_edge(m, root, edge) {
            None => Seq::<Edge>::empty(),
            Some(e) => seq![e] + edges(m, root, Some(e), (fuel - 1) as nat),
        }
    }
}

/// The nodes that a run of edges enters, in order.
pub open spec fn opened(run: Seq<Edge>) -> Seq<NodeRef>
    decreases run.len(),
{
    if run.len() == 0 {
        Seq::<NodeRef>::empty()
    } else {
        match run.last() {
            Edge::Open(node) => opened(run.drop_last()).push(node),
            Edge::Close(_) => opened(run.drop_last()),
        }
    }
}

/// A walk which traverses a subtree.
#[derive(Clone, Copy, Debug, PartialEq, Eq, Structural)]
pub struct Traverse {
    pub root: NodeRef,
    pub edge: Option<Edge>,
}

impl Traverse {
    /// Moves to the next edge and hands it out. After the last edge the walk
    /// starts over.
    pub fn next<T>(&mut self, tree: &Tree<T>) -> (edge: Option<Edge>)
        requires
            tree.wf(),
        ensures
            edge == next_edge(tree@, old(self).root, old(self).edge),
            *final(self) == (Traverse { root: old(self).root, edge }),
    {
        let next = match self.edge {
            None => Some(Edge::Open(self.root)),
            Some(Edge::Open(node)) => match node.first_child(tree) {
                Some(child) => Some(Edge::Open(child)),
                None => Some(Edge::Close(node)),
            },
            Some(Edge::Close(node)) => {
                if node == self.root {
                    None
                } else {
                    match node.next_sibling(tree) {
                        Some(sibling) => Some(Edge::Open(sibling)),
                        None => match node.parent(tree) {
                            Some(parent) => Some(Edge::Close(parent)),
                            None => None,
                        },
                    }
                }
            },
        };
        self.edge = next;
        next
    }

    /// Gathers the edges that are left. A subtree of `n` nodes has `2 n`
    /// edges, so the walk is cut off after twice the size of the tree.
    pub fn collect<T>(self, tree: &Tree<T>) -> (run: Vec<Edge>)
        requires
            tree.wf(),
            tree.size() <= usize::MAX / 2,
        ensures
            run@ == edges(tree@, self.root, self.edge, 2 * tree.size()),
    {
        let mut walk = self;
        let mut run: Vec<Edge> = Vec::new();
        let limit = 2 * tree.len();
        let mut taken: usize = 0;
        let mut going = true;
        while taken < limit && going
            invariant
                tree.wf(),
                taken <= limit,
                limit == 2 * tree.size(),
                walk.root == self.root,
                going ==> edges(tree@, self.root, self.edge, limit as nat) == run@ + edges(
                    tree@,
                    walk.root,
                    walk.edge,
                    (limit - taken) as nat,
                ),
                !going ==> edges(tree@, self.root, self.edge, limit as nat) == run@,
            decreases limit - taken,
        {
            let ghost before = walk;
            let ghost had = run@;
            let edge = walk.next(tree);
            match edge {
                Some(e) => {
                    run.push(e);
                    assert(run@ + edges(tree@, walk.root, walk.edge, (limit - taken - 1) as nat)
                        =~= had + edges(
                        tree@,
                        before.root,
                        before.edge,
                        (limit - taken) as nat,
                    ));
                },
                None => {
                    going = false;
                    assert(edges(tree@, before.root, before.edge, (limit - taken) as nat) =~= Seq::<
                        Edge,
                    >::empty());
                    assert(run@ + Seq::<Edge>::empty() =~= run@);
                },
            }
            taken = taken + 1;
        }
        if going {
            assert(edges(tree@, walk.root, walk.edge, (limit - taken) as nat) =~= Seq::<
                Edge,
            >::empty());
            assert(run@ + Seq::<Edge>::empty() =~= run@);
        }
        run
    }
}

/// A walk over a node and its descendants.
#[derive(Clone, Copy, Debug, PartialEq, Eq, Structural)]
pub struct Descendants(pub Traverse);

/// The next node that a walk through a subtree enters after `edge`, and the
/// edge at which the walk then stands; no node where the walk ends, or does
/// not enter a node within `fuel` steps.
pub open spec fn next_opening<T>(
    m: Map<NodeId, Node<T>>,
    root: NodeRef,
    edge: Option<Edge>,
    fuel: nat,
) -> (Option<NodeRef>, Option<Edge>)
    decreases fuel,
{
    if fuel == 0 {
        (None, edge)
    } else {
        match next_edge(m, root, edge) {
            None => (None, None),
            Some(Edge::Open(node)) => (Some(node), Some(Edge::Open(node))),
            Some(Edge::Close(node)) => next_opening(
                m,
                root,
                Some(Edge::Close(node)),
                (fuel - 1) as nat,
            ),
        }
    }
}

impl Descendants {
    /// Moves on to the next node that the walk enters and hands it out. The
    /// walk leaves at most as many nodes in a row as the tree is deep, so the
    /// search gives up after one step more than the tree has nodes.
    pub fn next<T>(&mut self, tree: &Tree<T>) -> (node: Option<NodeRef>)
        requires
            tree.wf(),
            tree.size() < usize::MAX,
        ensures
            final(self).0.root == old(self).0.root,
            (node, final(self).0.edge) == next_opening(
                tree@,
                old(self).0.root,
                old(self).0.edge,
                tree.size() + 1,
            ),
    {
        let limit = tree.len() + 1;
        let mut taken: usize = 0;
        while taken < limit
            invariant
                tree.wf(),
                taken <= limit,
                limit == tree.size() + 1,
                self.0.root == old(self).0.root,
                next_opening(tree@, old(self).0.root, old(self).0.edge, limit as nat)
                    == next_opening(tree@, self.0.root, self.0.edge, (limit - taken) as nat),
            decreases limit - taken,
        {
            match self.0.next(tree) {
                None => {
                    return None;
                },
                Some(Edge::Open(node)) => {
                    return Some(node);
                },
                Some(Edge::Close(_)) => {},
            }
            taken = taken + 1;
        }
        None
    }

    /// Gathers the nodes that are left: those that the rest of the walk
    /// through the subtree enters, in that order.
    pub fn collect<T>(self, tree: &Tree<T>) -> (nodes: Vec<NodeRef>)
        requires
            tree.wf(),
            tree.size() <= usize::MAX / 2,
        ensures
            nodes@ == opened(edges(tree@, self.0.root, self.0.edge, 2 * tree.size())),
    {
        let run = self.0.collect(tree);
        let mut nodes: Vec<NodeRef> = Vec::new();
        let mut i: usize = 0;
        assert(run@.take(0) =~= Seq::<Edge>::empty());
        while i < run.len()
            invariant
                0 <= i <= run.len(),
                nodes@ == opened(run@.take(i as int)),
            decreases run.len() - i,
        {
            assert(run@.take(i + 1).drop_last() =~= run@.take(i as int));
            match run[i] {
                Edge::Open(node) => {
                    nodes.push(node);
                },
                Edge::Close(_) => {},
            }
            i = i + 1;
        }
        assert(run@.take(run.len() as int) =~= run@);
        nodes
    }
}

impl NodeRef {
    /// Returns a walk over ancestors.
    pub fn ancestors<T>(&self, tree: &Tree<T>) -> (walk: Walk)
        requires
            tree.wf(),
        ensures
            walk == (Walk { toward: Toward::Parent, at: step(tree@, Some(*self), Toward::Parent) }),
    {
        Walk { toward: Toward::Parent, at: self.parent(tree) }
    }

    /// Returns a walk over previous siblings.
    pub fn prev_siblings<T>(&self, tree: &Tree<T>) -> (walk: Walk)
        requires
            tree.wf(),
        ensures
            walk == (Walk {
                toward: Toward::PrevSibling,
                at: step(tree@, Some(*self), Toward::PrevSibling),
            }),
    {
        Walk { toward: Toward::PrevSibling, at: self.prev_sibling(tree) }
    }

    /// Returns a walk over next siblings.
    pub fn next_siblings<T>(&self, tree: &Tree<T>) -> (walk: Walk)
        requires
            tree.wf(),
        ensures
            walk == (Walk {
                toward: Toward::NextSibling,
                at: step(tree@, Some(*self), Toward::NextSibling),
            }),
    {
        Walk { toward: Toward::NextSibling, at: self.next_sibling(tree) }
    }

    /// Returns a walk over first children.
    pub fn first_children<T>(&self, tree: &Tree<T>) -> (walk: Walk)
        requires
            tree.wf(),
        ensures
            walk == (Walk {
                toward: Toward::FirstChild,
                at: step(tree@, Some(*self), Toward::FirstChild),
            }),
    {
        Walk { toward: Toward::FirstChild, at: self.first_child(tree) }
    }

    /// Returns a walk over last children.
    pub fn last_children<T>(&self, tree: &Tree<T>) -> (walk: Walk)
        requires
            tree.wf(),
        ensures
            walk == (Walk {
                toward: Toward::LastChild,
                at: step(tree@, Some(*self), Toward::LastChild),
            }),
    {
        Walk { toward: Toward::LastChild, at: self.last_child(tree) }
    }

    /// Returns a walk over children.
    pub fn children<T>(&self, tree: &Tree<T>) -> (walk: Children)
        requires
            tree.wf(),
        ensures
            walk == (Children {
                front: step(tree@, Some(*self), Toward::FirstChild),
                back: step(tree@, Some(*self), Toward::LastChild),
            }),
    {
        Children { front: self.first_child(tree), back: self.last_child(tree) }
    }

    /// Returns a walk which traverses the subtree starting at this node.
    pub fn traverse(&self) -> (walk: Traverse)
        ensures
            walk == (Traverse { root: *self, edge: None }),
    {
        Traverse { root: *self, edge: None }
    }

    /// Returns a walk over this node and its descendants.
    pub fn descendants(&self) -> (walk: Descendants)
        ensures
            walk == Descendants(Traverse { root: *self, edge: None }),
    {
        Descendants(self.traverse())
    }
}

} // verus!
