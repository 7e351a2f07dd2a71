//! An ordered tree whose nodes are found by stable ids.
//!
//! The ids come from a `slotmap::SlotMap`, which maps each id to the place of
//! its node in the order of insertion. The slot map holds the place of a
//! node rather than the node itself, so that what it holds can be stated
//! whatever the type of the values is. Nodes are never removed: a node that
//! is detached stays in the tree as an orphan.

use vstd::prelude::*;
use vstd::std_specs::cmp::PartialEqSpec;
use vstd::std_specs::cmp::PartialEqSpecImpl;

verus! {

/// The slot map that gives out the ids: it maps each id to the place of its
/// node. Verus sees nothing inside it; [`slots`] names what it holds.
#[verifier::external_body]
#[derive(Debug)]
pub struct Slots {
    inner: slotmap::SlotMap<slotmap::DefaultKey, usize>,
}

/// What a slot map holds: for each key, given as the 64 bits of
/// `KeyData::as_ffi`, the value stored under it.
pub uninterp spec fn slots(sm: Slots) -> Map<u64, usize>;

/// The bits of the null key: the largest index, in its first version.
pub const NULL_BITS: u64 = 0x1_FFFF_FFFF;

/// The largest number of values that a slot map takes.
pub const MAX_NODES: usize = 0xFFFF_FFF0;

/// True for the bits that `KeyData::as_ffi` can give: the version, in the
/// upper half, is odd.
pub open spec fn canonical(bits: u64) -> bool {
    (bits / 0x1_0000_0000) % 2 == 1
}

/// The content of a map that holds nothing.
pub open spec fn no_slots() -> Map<u64, usize> {
    Map::empty()
}

/// Makes an empty map with `slotmap::SlotMap::with_capacity_and_key`.
#[verifier::external_body]
fn slots_with_capacity(capacity: usize) -> (sm: Slots)
    requires
        capacity <= MAX_NODES,
    ensures
        slots(sm) == no_slots(),
{
    Slots { inner: slotmap::SlotMap::with_capacity_and_key(capacity) }
}

/// Stores a value with `slotmap::SlotMap::insert` and hands out the bits of
/// the new key. The key is one under which nothing was stored, it is not the
/// null key, and no other entry changes. The map refuses more values than
/// 32 bits can count, so the caller stays below that.
#[verifier::external_body]
fn slots_insert(sm: &mut Slots, value: usize) -> (key: u64)
    requires
        slots(*old(sm)).dom().finite(),
        slots(*old(sm)).dom().len() < MAX_NODES,
    ensures
        !slots(*old(sm)).contains_key(key),
        slots(*final(sm)) == slots(*old(sm)).insert(key, value),
        canonical(key),
        key != NULL_BITS,
{
    slotmap::Key::data(&sm.inner.insert(value)).as_ffi()
}

/// Looks a key up with `slotmap::SlotMap::get`, the key being made from its
/// bits with `KeyData::from_ffi`.
#[verifier::external_body]
fn slots_get(sm: &Slots, key: u64) -> (value: Option<usize>)
    requires
        canonical(key),
    ensures
        value == if slots(*sm).contains_key(key) {
            Some(slots(*sm)[key])
        } else {
            None::<usize>
        },
{
    sm.inner.get(slotmap::DefaultKey::from(slotmap::KeyData::from_ffi(key))).copied()
}

/// The bits of `slotmap::Key::null`.
#[verifier::external_body]
fn null_key() -> (key: u64)
    ensures
        key == NULL_BITS,
{
    let null: slotmap::DefaultKey = slotmap::Key::null();
    slotmap::Key::data(&null).as_ffi()
}

/// The id of a node of a [`Tree`].
#[derive(Clone, Copy, Debug, PartialEq, Eq, Hash, Structural)]
pub struct NodeId {
    pub bits: u64,
}

impl NodeId {
    /// The id that names no node.
    pub open spec fn null_spec() -> NodeId {
        NodeId { bits: NULL_BITS }
    }

    pub open spec fn is_null_spec(self) -> bool {
        self.bits == NULL_BITS
    }

    /// The id that names no node.
    pub fn null() -> (id: NodeId)
        ensures
            id == NodeId::null_spec(),
    {
        NodeId { bits: null_key() }
    }

    /// Tells whether this is the id that names no node.
    pub fn is_null(&self) -> (null: bool)
        ensures
            null == self.is_null_spec(),
    {
        self.bits == NULL_BITS
    }
}

/// A node: its value and the ids of its neighbours.
#[derive(Debug, PartialEq, Eq)]
pub struct Node<T> {
    pub parent: NodeId,
    pub prev_sibling: NodeId,
    pub next_sibling: NodeId,
    /// The first and the last child.
    pub children: (NodeId, NodeId),
    pub value: T,
}

impl<T> Node<T> {
    /// True for a node without neighbours.
    pub open spec fn alone(&self) -> bool {
        &&& self.parent == NodeId::null_spec()
        &&& self.prev_sibling == NodeId::null_spec()
        &&& self.next_sibling == NodeId::null_spec()
        &&& self.children == (NodeId::null_spec(), NodeId::null_spec())
    }

    /// A node without neighbours.
    pub fn new(value: T) -> (node: Self)
        ensures
            node.alone(),
            node.value == value,
    {
        Node {
            parent: NodeId::null(),
            prev_sibling: NodeId::null(),
            next_sibling: NodeId::null(),
            children: (NodeId::null(), NodeId::null()),
            value,
        }
    }

    pub fn value(&self) -> (value: &T)
        ensures
            *value == self.value,
    {
        &self.value
    }

    pub fn value_mut(&mut self) -> (value: &mut T)
        ensures
            *value == old(self).value,
            *final(self) == (Node { value: *final(value), ..*old(self) }),
    {
        &mut self.value
    }
}

/// The ids of a node's neighbours.
#[derive(Clone, Copy, Debug)]
pub struct Links {
    pub parent: NodeId,
    pub prev_sibling: NodeId,
    pub next_sibling: NodeId,
    pub children: (NodeId, NodeId),
}

/// The neighbours of a node.
pub open spec fn links_of<T>(node: Node<T>) -> Links {
    Links {
        parent: node.parent,
        prev_sibling: node.prev_sibling,
        next_sibling: node.next_sibling,
        children: node.children,
    }
}

/// A node with its neighbours set anew and its value kept.
pub open spec fn relinked<T>(node: Node<T>, links: Links) -> Node<T> {
    Node {
        parent: links.parent,
        prev_sibling: links.prev_sibling,
        next_sibling: links.next_sibling,
        children: links.children,
        value: node.value,
    }
}

/// The nodes with the neighbours of one of them set anew; unchanged where
/// the id stands for no node.
pub open spec fn with_links<T>(m: Map<NodeId, Node<T>>, id: NodeId, links: Links) -> Map<
    NodeId,
    Node<T>,
> {
    if m.contains_key(id) {
        m.insert(id, relinked(m[id], links))
    } else {
        m
    }
}

/// The neighbours of the node with an id; those of a lone node where the id
/// stands for no node.
pub open spec fn links_at<T>(m: Map<NodeId, Node<T>>, id: NodeId) -> Links {
    if m.contains_key(id) {
        links_of(m[id])
    } else {
        Links {
            parent: NodeId::null_spec(),
            prev_sibling: NodeId::null_spec(),
            next_sibling: NodeId::null_spec(),
            children: (NodeId::null_spec(), NodeId::null_spec()),
        }
    }
}

/// The id, where it stands for a node; the null id where it does not.
pub open spec fn known<T>(m: Map<NodeId, Node<T>>, id: NodeId) -> NodeId {
    if m.contains_key(id) {
        id
    } else {
        NodeId::null_spec()
    }
}

/// A reference to the node with an id, where the id stands for a node.
pub open spec fn node_ref<T>(m: Map<NodeId, Node<T>>, id: NodeId) -> Option<NodeRef> {
    if m.contains_key(id) {
        Some(NodeRef { id })
    } else {
        None
    }
}

/// A tree. It always has a root node.
#[derive(Debug)]
pub struct Tree<T> {
    root: NodeId,
    ids: Slots,
    order: Vec<NodeId>,
    nodes: Vec<Node<T>>,
}

/// A reference to a node of a tree. Its methods take the tree it refers to.
#[derive(Clone, Copy, Debug, PartialEq, Eq, Structural)]
pub struct NodeRef {
    pub id: NodeId,
}

impl<T> Tree<T> {
    /// The ids of the nodes, in the order in which the nodes were made.
    pub closed spec fn order(&self) -> Seq<NodeId> {
        self.order@
    }

    /// The id of the root.
    pub closed spec fn root_id(&self) -> NodeId {
        self.root
    }

    /// The nodes by their ids.
    pub closed spec fn view(&self) -> Map<NodeId, Node<T>> {
        Map::new(
            |id: NodeId| slots(self.ids).contains_key(id.bits),
            |id: NodeId| self.nodes@[slots(self.ids)[id.bits] as int],
        )
    }

    /// Each id stands for one node and each node has one id; the null id
    /// stands for none; the root is a node.
    pub closed spec fn wf(&self) -> bool {
        &&& slots(self.ids).dom().finite()
        &&& slots(self.ids).dom().len() == self.nodes@.len()
        &&& self.order@.len() == self.nodes@.len()
        &&& !slots(self.ids).contains_key(NULL_BITS)
        &&& slots(self.ids).contains_key(self.root.bits)
        &&& forall|i: int|
            0 <= i < self.order@.len() ==> slots(self.ids).contains_key(
                (#[trigger] self.order@[i]).bits,
            ) && slots(self.ids)[self.order@[i].bits] == i
        &&& forall|k: u64| #[trigger]
            slots(self.ids).contains_key(k) ==> canonical(k) && slots(self.ids)[k]
                < self.nodes@.len() && self.order@[slots(self.ids)[k] as int].bits == k
    }

    /// The number of nodes.
    pub open spec fn size(&self) -> nat {
        self.order().len()
    }

    /// In a tree the ids in order are those of the nodes, each once; the
    /// null id is none of them, and the root is one.
    pub proof fn wf_facts(&self)
        requires
            self.wf(),
        ensures
            !self@.contains_key(NodeId::null_spec()),
            self@.contains_key(self.root_id()),
            forall|i: int| 0 <= i < self.order().len() ==> self@.contains_key(#[trigger] self.order()[i]),
            forall|id: NodeId| #[trigger] self@.contains_key(id) ==> self.order().contains(id),
            forall|i: int, j: int|
                0 <= i < j < self.order().len() ==> self.order()[i] != self.order()[j],
    {
        assert forall|id: NodeId| #[trigger] self@.contains_key(id) implies self.order().contains(
            id,
        ) by {
            let i = slots(self.ids)[id.bits] as int;
            assert(self.order@[i].bits == id.bits);
            assert(self.order@[i] == id);
        }
    }

    fn index_of(&self, id: NodeId) -> (at: Option<usize>)
        requires
            self.wf(),
        ensures
            match at {
                Some(i) => self@.contains_key(id) && i < self.nodes@.len() && self.order@[i as int]
                    == id && self@[id] == self.nodes@[i as int],
                None => !self@.contains_key(id),
            },
    {
        if (id.bits / 0x1_0000_0000) % 2 != 1 {
            return None;
        }
        slots_get(&self.ids, id.bits)
    }

    fn links(&self, id: NodeId) -> (links: Links)
        requires
            self.wf(),
        ensures
            links == links_at(self@, id),
    {
        match self.index_of(id) {
            Some(i) => {
                let node = &self.nodes[i];
                Links {
                    parent: node.parent,
                    prev_sibling: node.prev_sibling,
                    next_sibling: node.next_sibling,
                    children: node.children,
                }
            },
            None => Links {
                parent: NodeId::null(),
                prev_sibling: NodeId::null(),
                next_sibling: NodeId::null(),
                children: (NodeId::null(), NodeId::null()),
            },
        }
    }

    fn relink(&mut self, id: NodeId, links: Links)
        requires
            old(self).wf(),
        ensures
            final(self).wf(),
            final(self).order() == old(self).order(),
            final(self).root_id() == old(self).root_id(),
            final(self)@ == with_links(old(self)@, id, links),
    {
        match self.index_of(id) {
            Some(i) => {
                self.nodes[i].parent = links.parent;
                self.nodes[i].prev_sibling = links.prev_sibling;
                self.nodes[i].next_sibling = links.next_sibling;
                self.nodes[i].children = links.children;
                assert(self@ =~= with_links(old(self)@, id, links));
            },
            None => {},
        }
    }

    fn known(&self, id: NodeId) -> (found: NodeId)
        requires
            self.wf(),
        ensures
            found == known(self@, id),
    {
        match self.index_of(id) {
            Some(_) => id,
            None => NodeId::null(),
        }
    }

    /// Creates a tree with a root node.
    pub fn new(root: T) -> (tree: Self)
        ensures
            tree.wf(),
            tree.order() == seq![tree.root_id()],
            tree@ == Map::<NodeId, Node<T>>::empty().insert(tree.root_id(), tree@[tree.root_id()]),
            tree@[tree.root_id()].alone(),
            tree@[tree.root_id()].value == root,
    {
        Tree::with_capacity(root, 0)
    }

    /// Creates a tree with a root node and room for `capacity` nodes.
    pub fn with_capacity(root: T, capacity: usize) -> (tree: Self)
        requires
            capacity <= MAX_NODES,
        ensures
            tree.wf(),
            tree.order() == seq![tree.root_id()],
            tree@ == Map::<NodeId, Node<T>>::empty().insert(tree.root_id(), tree@[tree.root_id()]),
            tree@[tree.root_id()].alone(),
            tree@[tree.root_id()].value == root,
    {
        let mut ids = slots_with_capacity(capacity);
        let bits = slots_insert(&mut ids, 0);
        let id = NodeId { bits };
        let mut order: Vec<NodeId> = Vec::new();
        order.push(id);
        let mut nodes: Vec<Node<T>> = Vec::new();
        nodes.push(Node::new(root));
        let tree = Tree { root: id, ids, order, nodes };
        proof {
            assert(slots(tree.ids).dom() =~= Set::<u64>::empty().insert(bits));
            assert(tree@ =~= Map::<NodeId, Node<T>>::empty().insert(id, tree@[id]));
        }
        tree
    }

    /// Returns a reference to the node with an id, where the tree has one.
    pub fn get(&self, id: NodeId) -> (found: Option<NodeRef>)
        requires
            self.wf(),
        ensures
            found == node_ref(self@, id),
    {
        match self.index_of(id) {
            Some(_) => Some(NodeRef { id }),
            None => None,
        }
    }

    /// Returns a reference to the root node.
    pub fn root(&self) -> (root: NodeRef)
        requires
            self.wf(),
        ensures
            root.id == self.root_id(),
            self@.contains_key(root.id),
    {
        NodeRef { id: self.root }
    }

    /// The node with an id, where the tree has one.
    pub fn node(&self, id: NodeId) -> (found: Option<&Node<T>>)
        requires
            self.wf(),
        ensures
            match found {
                Some(node) => self@.contains_key(id) && *node == self@[id],
                None => !self@.contains_key(id),
            },
    {
        match self.index_of(id) {
            Some(i) => Some(&self.nodes[i]),
            None => None,
        }
    }

    /// The number of nodes, orphans included.
    pub fn len(&self) -> (n: usize)
        requires
            self.wf(),
        ensures
            n == self.size(),
    {
        self.order.len()
    }

    /// The nodes with their ids, in the order in which they were made.
    pub fn nodes(&self) -> (all: Vec<(NodeId, &Node<T>)>)
        requires
            self.wf(),
        ensures
            all@.len() == self.order().len(),
            forall|i: int|
                0 <= i < all@.len() ==> (#[trigger] all@[i]).0 == self.order()[i] && *all@[i].1
                    == self@[self.order()[i]],
    {
        let mut all: Vec<(NodeId, &Node<T>)> = Vec::new();
        let mut i: usize = 0;
        while i < self.nodes.len()
            invariant
                self.wf(),
                0 <= i <= self.nodes@.len(),
                all@.len() == i,
                forall|j: int|
                    0 <= j < i ==> (#[trigger] all@[j]).0 == self.order@[j] && *all@[j].1
                        == self.nodes@[j],
            decreases self.nodes@.len() - i,
        {
            all.push((self.order[i], &self.nodes[i]));
            i = i + 1;
        }
        all
    }

    /// The values of the nodes, in the order in which the nodes were made.
    pub fn values(&self) -> (all: Vec<&T>)
        requires
            self.wf(),
        ensures
            all@.len() == self.order().len(),
            forall|i: int|
                0 <= i < all@.len() ==> *(#[trigger] all@[i]) == self@[self.order()[i]].value,
    {
        let mut all: Vec<&T> = Vec::new();
        let mut i: usize = 0;
        while i < self.nodes.len()
            invariant
                self.wf(),
                0 <= i <= self.nodes@.len(),
                all@.len() == i,
                forall|j: int| 0 <= j < i ==> *(#[trigger] all@[j]) == self.nodes@[j].value,
            decreases self.nodes@.len() - i,
        {
            all.push(&self.nodes[i].value);
            i = i + 1;
        }
        all
    }

    /// Takes the tree apart into the values of its nodes, in the order in
    /// which the nodes were made.
    pub fn try_into_iter(self) -> (values: Vec<T>)
        requires
            self.wf(),
        ensures
            values@.len() == self.order().len(),
            forall|i: int|
                0 <= i < values@.len() ==> (#[trigger] values@[i]) == self@[self.order()[i]].value,
    {
        let ghost given = self.nodes@;
        let Tree { nodes, .. } = self;
        let mut nodes = nodes;
        let mut reversed: Vec<T> = Vec::new();
        while nodes.len() > 0
            invariant
                nodes@.len() + reversed@.len() == given.len(),
                forall|j: int| 0 <= j < nodes@.len() ==> nodes@[j] == given[j],
                forall|j: int|
                    0 <= j < reversed@.len() ==> (#[trigger] reversed@[j]) == given[given.len() - 1
                        - j].value,
            decreases nodes@.len(),
        {
            match nodes.pop() {
                Some(node) => {
                    reversed.push(node.value);
                },
                None => {},
            }
        }
        let mut values: Vec<T> = Vec::new();
        while reversed.len() > 0
            invariant
                values@.len() + reversed@.len() == given.len(),
                forall|j: int|
                    0 <= j < reversed@.len() ==> (#[trigger] reversed@[j]) == given[given.len() - 1
                        - j].value,
                forall|j: int| 0 <= j < values@.len() ==> (#[trigger] values@[j]) == given[j].value,
            decreases reversed@.len(),
        {
            match reversed.pop() {
                Some(value) => {
                    values.push(value);
                },
                None => {},
            }
        }
        values
    }

    /// The value of a node, to be changed in place.
    pub fn value_mut(&mut self, id: NodeId) -> (value: Option<&mut T>)
        requires
            old(self).wf(),
        ensures
            final(self).wf(),
            final(self).order() == old(self).order(),
            final(self).root_id() == old(self).root_id(),
            match value {
                Some(v) => old(self)@.contains_key(id) && *v == old(self)@[id].value && final(self)@
                    == old(self)@.insert(id, Node { value: *final(v), ..old(self)@[id] }),
                None => !old(self)@.contains_key(id) && final(self)@ == old(self)@,
            },
    {
        match self.index_of(id) {
            Some(i) => {
                let node = &mut self.nodes[i];
                Some(&mut node.value)
            },
            None => None,
        }
    }

    /// Puts a new value in place of the value of a node.
    pub fn put_value(&mut self, id: NodeId, value: T) -> (updated: bool)
        requires
            old(self).wf(),
        ensures
            final(self).wf(),
            final(self).order() == old(self).order(),
            final(self).root_id() == old(self).root_id(),
            updated == old(self)@.contains_key(id),
            final(self)@ == if updated {
                old(self)@.insert(id, Node { value, ..old(self)@[id] })
            } else {
                old(self)@
            },
    {
        match self.index_of(id) {
            Some(i) => {
                self.nodes[i].value = value;
                assert(self@ =~= old(self)@.insert(id, Node { value, ..old(self)@[id] }));
                true
            },
            None => false,
        }
    }

    /// Creates an orphan node: a node of the tree without neighbours.
    pub fn orphan(&mut self, value: T) -> (id: NodeId)
        requires
            old(self).wf(),
            old(self).size() < MAX_NODES,
        ensures
            final(self).wf(),
            !old(self)@.contains_key(id),
            id != NodeId::null_spec(),
            final(self)@ == old(self)@.insert(id, final(self)@[id]),
            final(self)@[id].alone(),
            final(self)@[id].value == value,
            final(self).order() == old(self).order().push(id),
            final(self).root_id() == old(self).root_id(),
    {
        let at = self.nodes.len();
        let bits = slots_insert(&mut self.ids, at);
        let id = NodeId { bits };
        self.order.push(id);
        self.nodes.push(Node::new(value));
        proof {
            assert(slots(self.ids).dom() =~= slots(old(self).ids).dom().insert(bits));
            assert(self@ =~= old(self)@.insert(id, self@[id]));
        }
        id
    }
}

/// The nodes with the parent of one of them set anew.
pub open spec fn put_parent<T>(m: Map<NodeId, Node<T>>, id: NodeId, parent: NodeId) -> Map<
    NodeId,
    Node<T>,
> {
    with_links(m, id, Links { parent, ..links_at(m, id) })
}

/// The nodes with the previous sibling of one of them set anew.
pub open spec fn put_prev<T>(m: Map<NodeId, Node<T>>, id: NodeId, prev_sibling: NodeId) -> Map<
    NodeId,
    Node<T>,
> {
    with_links(m, id, Links { prev_sibling, ..links_at(m, id) })
}

/// The nodes with the next sibling of one of them set anew.
pub open spec fn put_next<T>(m: Map<NodeId, Node<T>>, id: NodeId, next_sibling: NodeId) -> Map<
    NodeId,
    Node<T>,
> {
    with_links(m, id, Links { next_sibling, ..links_at(m, id) })
}

/// The nodes with the first and last child of one of them set anew.
pub open spec fn put_children<T>(
    m: Map<NodeId, Node<T>>,
    id: NodeId,
    children: (NodeId, NodeId),
) -> Map<NodeId, Node<T>> {
    with_links(m, id, Links { children, ..links_at(m, id) })
}

/// The nodes after `child` was made the last child of `id`: the child gets
/// its parent and, as previous sibling, the last child so far, which gets the
/// child as next sibling; the parent's last child is the new one, and its
/// first child too where it had none.
pub open spec fn appended<T>(m: Map<NodeId, Node<T>>, id: NodeId, child: NodeId) -> Map<
    NodeId,
    Node<T>,
> {
    let last = known(m, links_at(m, id).children.1);
    let m1 = with_links(m, child, Links { parent: id, prev_sibling: last, ..links_at(m, child) });
    let m2 = put_next(m1, last, child);
    let c = links_at(m2, id).children;
    put_children(
        m2,
        id,
        if !c.0.is_null_spec() {
            (c.0, child)
        } else {
            (child, child)
        },
    )
}

/// The nodes after `child` was made the first child of `id`.
pub open spec fn prepended<T>(m: Map<NodeId, Node<T>>, id: NodeId, child: NodeId) -> Map<
    NodeId,
    Node<T>,
> {
    let first = known(m, links_at(m, id).children.0);
    let m1 = with_links(m, child, Links { parent: id, next_sibling: first, ..links_at(m, child) });
    let m2 = put_prev(m1, first, child);
    let c = links_at(m2, id).children;
    put_children(
        m2,
        id,
        if !c.1.is_null_spec() {
            (child, c.1)
        } else {
            (child, child)
        },
    )
}

/// True where the id stands for a node whose parent is a node.
pub open spec fn has_parent<T>(m: Map<NodeId, Node<T>>, id: NodeId) -> bool {
    m.contains_key(id) && m.contains_key(m[id].parent)
}

/// The nodes after `sibling` was put right before `id` under the parent of
/// `id`; unchanged where `id` has no parent.
pub open spec fn inserted_before<T>(m: Map<NodeId, Node<T>>, id: NodeId, sibling: NodeId) -> Map<
    NodeId,
    Node<T>,
> {
    if !has_parent(m, id) {
        m
    } else {
        let parent = m[id].parent;
        let prev = known(m, m[id].prev_sibling);
        let m1 = with_links(
            m,
            sibling,
            Links { parent, prev_sibling: prev, next_sibling: id, ..links_at(m, sibling) },
        );
        let m2 = put_next(m1, prev, sibling);
        let m3 = put_prev(m2, id, sibling);
        let c = links_at(m3, parent).children;
        if c.0 == id {
            put_children(m3, parent, (sibling, c.1))
        } else {
            m3
        }
    }
}

/// The nodes after `sibling` was put right after `id` under the parent of
/// `id`; unchanged where `id` has no parent.
pub open spec fn inserted_after<T>(m: Map<NodeId, Node<T>>, id: NodeId, sibling: NodeId) -> Map<
    NodeId,
    Node<T>,
> {
    if !has_parent(m, id) {
        m
    } else {
        let parent = m[id].parent;
        let next = known(m, m[id].next_sibling);
        let m1 = with_links(
            m,
            sibling,
            Links { parent, prev_sibling: id, next_sibling: next, ..links_at(m, sibling) },
        );
        let m2 = put_prev(m1, next, sibling);
        let m3 = put_next(m2, id, sibling);
        let c = links_at(m3, parent).children;
        if c.1 == id {
            put_children(m3, parent, (c.0, sibling))
        } else {
            m3
        }
    }
}

/// The nodes after `id` was taken from its parent: the node keeps its
/// children and loses parent and siblings; its siblings are joined; the
/// parent's first or last child moves on where the node was one of them.
/// Unchanged where the node has no parent.
pub open spec fn detached<T>(m: Map<NodeId, Node<T>>, id: NodeId) -> Map<NodeId, Node<T>> {
    let l = links_at(m, id);
    if l.parent.is_null_spec() {
        m
    } else {
        let m1 = with_links(
            m,
            id,
            Links {
                parent: NodeId::null_spec(),
                prev_sibling: NodeId::null_spec(),
                next_sibling: NodeId::null_spec(),
                ..l
            },
        );
        let m2 = if !l.prev_sibling.is_null_spec() {
            put_next(m1, l.prev_sibling, l.next_sibling)
        } else {
            m1
        };
        let m3 = if !l.next_sibling.is_null_spec() {
            put_prev(m2, l.next_sibling, l.prev_sibling)
        } else {
            m2
        };
        let c = links_at(m3, l.parent).children;
        put_children(
            m3,
            l.parent,
            if c.0 == c.1 {
                (NodeId::null_spec(), NodeId::null_spec())
            } else if c.0 == id {
                (l.next_sibling, c.1)
            } else if c.1 == id {
                (c.0, l.prev_sibling)
            } else {
                c
            },
        )
    }
}

/// The nodes after the children of `from` were moved to the end of the
/// children of `id`. The node `from` is left without children; its first and
/// last child get `id` as parent and are chained behind the children that
/// `id` had.
pub open spec fn reparented<T>(m: Map<NodeId, Node<T>>, id: NodeId, from: NodeId) -> Map<
    NodeId,
    Node<T>,
> {
    let moved = links_at(m, from).children;
    let m1 = put_children(m, from, (NodeId::null_spec(), NodeId::null_spec()));
    if moved.0.is_null_spec() && moved.1.is_null_spec() {
        m1
    } else {
        let m2 = put_parent(m1, moved.0, id);
        let m3 = put_parent(m2, moved.1, id);
        if !m3.contains_key(id) {
            m3
        } else {
            let had = m3[id].children;
            if had.0.is_null_spec() && had.1.is_null_spec() {
                put_children(m3, id, moved)
            } else {
                let m4 = put_next(m3, had.1, moved.0);
                let m5 = put_prev(m4, moved.0, had.1);
                put_children(m5, id, (had.0, moved.1))
            }
        }
    }
}

impl<T> Tree<T> {
    fn set_parent(&mut self, id: NodeId, parent: NodeId)
        requires
            old(self).wf(),
        ensures
            final(self).wf(),
            final(self).order() == old(self).order(),
            final(self).root_id() == old(self).root_id(),
            final(self)@ == put_parent(old(self)@, id, parent),
    {
        let l = self.links(id);
        self.relink(id, Links { parent, ..l });
    }

    fn set_prev(&mut self, id: NodeId, prev_sibling: NodeId)
        requires
            old(self).wf(),
        ensures
            final(self).wf(),
            final(self).order() == old(self).order(),
            final(self).root_id() == old(self).root_id(),
            final(self)@ == put_prev(old(self)@, id, prev_sibling),
    {
        let l = self.links(id);
        self.relink(id, Links { prev_sibling, ..l });
    }

    fn set_next(&mut self, id: NodeId, next_sibling: NodeId)
        requires
            old(self).wf(),
        ensures
            final(self).wf(),
            final(self).order() == old(self).order(),
            final(self).root_id() == old(self).root_id(),
            final(self)@ == put_next(old(self)@, id, next_sibling),
    {
        let l = self.links(id);
        self.relink(id, Links { next_sibling, ..l });
    }

    fn set_children(&mut self, id: NodeId, children: (NodeId, NodeId))
        requires
            old(self).wf(),
        ensures
            final(self).wf(),
            final(self).order() == old(self).order(),
            final(self).root_id() == old(self).root_id(),
            final(self)@ == put_children(old(self)@, id, children),
    {
        let l = self.links(id);
        self.relink(id, Links { children, ..l });
    }
}

impl<T> Tree<T> {
    /// The values of the nodes, in the order in which the nodes were made.
    pub closed spec fn values_in_order(&self) -> Seq<T> {
        self.nodes@.map_values(|node: Node<T>| node.value)
    }

    /// The values in order are those of the nodes that the ids in order name.
    pub proof fn values_in_order_are_the_nodes(&self)
        requires
            self.wf(),
        ensures
            self.values_in_order().len() == self.order().len(),
            forall|i: int|
                0 <= i < self.order().len() ==> #[trigger] self.values_in_order()[i]
                    == self@[self.order()[i]].value,
    {
    }
}

impl<T: PartialEq> PartialEq for Tree<T> {
    /// Compares the values of two trees pair by pair, in the order in which
    /// the nodes were made, as far as both trees have nodes. The links
    /// between the nodes are not compared.
    fn eq(&self, other: &Self) -> (same: bool) {
        let mut i: usize = 0;
        while i < self.nodes.len() && i < other.nodes.len()
            invariant
                T::obeys_eq_spec() ==> forall|j: int|
                    0 <= j < i ==> (#[trigger] self.values_in_order()[j]).eq_spec(
                        &other.values_in_order()[j],
                    ),
            decreases self.nodes@.len() - i,
        {
            if !(self.nodes[i].value == other.nodes[i].value) {
                assert(T::obeys_eq_spec() ==> !self.values_in_order()[i as int].eq_spec(
                    &other.values_in_order()[i as int],
                ));
                return false;
            }
            i = i + 1;
        }
        true
    }
}

impl<T: PartialEq> PartialEqSpecImpl for Tree<T> {
    open spec fn obeys_eq_spec() -> bool {
        T::obeys_eq_spec()
    }

    open spec fn eq_spec(&self, other: &Tree<T>) -> bool {
        forall|j: int|
            0 <= j < self.values_in_order().len() && j < other.values_in_order().len() ==> (
            #[trigger] self.values_in_order()[j]).eq_spec(&other.values_in_order()[j])
    }
}

impl NodeRef {
    /// Returns the id of this node.
    pub fn id(&self) -> (id: NodeId)
        ensures
            id == self.id,
    {
        self.id
    }

    /// Returns the result of `map_fn` applied to the value of this node.
    pub fn map_value<T, F, R>(&self, tree: &Tree<T>, map_fn: F) -> (mapped: Option<R>) where
        F: FnOnce(&T) -> R,

        requires
            tree.wf(),
            tree@.contains_key(self.id) ==> map_fn.requires((&tree@[self.id].value,)),
        ensures
            match mapped {
                Some(r) => tree@.contains_key(self.id) && map_fn.ensures(
                    (&tree@[self.id].value,),
                    r,
                ),
                None => !tree@.contains_key(self.id),
            },
    {
        match tree.node(self.id) {
            Some(node) => Some(map_fn(node.value())),
            None => None,
        }
    }

    /// Puts a new value in place of the value of this node. Returns `false`,
    /// and changes nothing, where the reference stands for no node.
    pub fn update_value<T>(&self, tree: &mut Tree<T>, value: T) -> (updated: bool)
        requires
            old(tree).wf(),
        ensures
            final(tree).wf(),
            final(tree).order() == old(tree).order(),
            final(tree).root_id() == old(tree).root_id(),
            updated == old(tree)@.contains_key(self.id),
            final(tree)@ == if updated {
                old(tree)@.insert(self.id, Node { value, ..old(tree)@[self.id] })
            } else {
                old(tree)@
            },
    {
        tree.put_value(self.id, value)
    }

    /// Returns the parent of this node.
    pub fn parent<T>(&self, tree: &Tree<T>) -> (found: Option<NodeRef>)
        requires
            tree.wf(),
        ensures
            found == node_ref(tree@, links_at(tree@, self.id).parent),
    {
        tree.get(tree.links(self.id).parent)
    }

    /// Returns the previous sibling of this node.
    pub fn prev_sibling<T>(&self, tree: &Tree<T>) -> (found: Option<NodeRef>)
        requires
            tree.wf(),
        ensures
            found == node_ref(tree@, links_at(tree@, self.id).prev_sibling),
    {
        tree.get(tree.links(self.id).prev_sibling)
    }

    /// Returns the next sibling of this node.
    pub fn next_sibling<T>(&self, tree: &Tree<T>) -> (found: Option<NodeRef>)
        requires
            tree.wf(),
        ensures
            found == node_ref(tree@, links_at(tree@, self.id).next_sibling),
    {
        tree.get(tree.links(self.id).next_sibling)
    }

    /// Returns the first child of this node.
    pub fn first_child<T>(&self, tree: &Tree<T>) -> (found: Option<NodeRef>)
        requires
            tree.wf(),
        ensures
            found == node_ref(tree@, links_at(tree@, self.id).children.0),
    {
        tree.get(tree.links(self.id).children.0)
    }

    /// Returns the last child of this node.
    pub fn last_child<T>(&self, tree: &Tree<T>) -> (found: Option<NodeRef>)
        requires
            tree.wf(),
        ensures
            found == node_ref(tree@, links_at(tree@, self.id).children.1),
    {
        tree.get(tree.links(self.id).children.1)
    }

    /// Returns true if this node has siblings.
    pub fn has_siblings<T>(&self, tree: &Tree<T>) -> (has: bool)
        requires
            tree.wf(),
        ensures
            has == (!links_at(tree@, self.id).prev_sibling.is_null_spec() || !links_at(
                tree@,
                self.id,
            ).next_sibling.is_null_spec()),
    {
        let l = tree.links(self.id);
        !l.prev_sibling.is_null() || !l.next_sibling.is_null()
    }

    /// Returns true if this node has children.
    pub fn has_children<T>(&self, tree: &Tree<T>) -> (has: bool)
        requires
            tree.wf(),
        ensures
            has == (!links_at(tree@, self.id).children.0.is_null_spec() && !links_at(
                tree@,
                self.id,
            ).children.1.is_null_spec()),
    {
        let l = tree.links(self.id);
        !l.children.0.is_null() && !l.children.1.is_null()
    }

    /// Detaches this node from its parent.
    pub fn detach<T>(&self, tree: &mut Tree<T>)
        requires
            old(tree).wf(),
        ensures
            final(tree).wf(),
            final(tree).order() == old(tree).order(),
            final(tree).root_id() == old(tree).root_id(),
            final(tree)@ == detached(old(tree)@, self.id),
    {
        let l = tree.links(self.id);
        if l.parent.is_null() {
            return ;
        }
        tree.relink(
            self.id,
            Links {
                parent: NodeId::null(),
                prev_sibling: NodeId::null(),
                next_sibling: NodeId::null(),
                ..l
            },
        );
        if !l.prev_sibling.is_null() {
            tree.set_next(l.prev_sibling, l.next_sibling);
        }
        if !l.next_sibling.is_null() {
            tree.set_prev(l.next_sibling, l.prev_sibling);
        }
        let c = tree.links(l.parent).children;
        let children = if c.0 == c.1 {
            (NodeId::null(), NodeId::null())
        } else if c.0 == self.id {
            (l.next_sibling, c.1)
        } else if c.1 == self.id {
            (c.0, l.prev_sibling)
        } else {
            c
        };
        tree.set_children(l.parent, children);
    }

    /// Appends a new child to this node.
    pub fn append<T>(&self, tree: &mut Tree<T>, value: T) -> (child: Option<NodeRef>)
        requires
            old(tree).wf(),
            old(tree).size() < MAX_NODES,
        ensures
            final(tree).wf(),
            final(tree).root_id() == old(tree).root_id(),
            child matches Some(c) && !old(tree)@.contains_key(c.id)
                && final(tree).order() == old(tree).order().push(c.id) && exists|node: Node<T>|
                node.alone() && node.value == value && final(tree)@ == appended(
                    old(tree)@.insert(c.id, node),
                    self.id,
                    c.id,
                ),
    {
        let new_child_id = tree.orphan(value);
        let ghost made = tree@;
        let child = self.append_id(tree, new_child_id);
        assert(made == old(tree)@.insert(new_child_id, made[new_child_id]));
        child
    }

    /// Appends a child to this node.
    pub fn append_id<T>(&self, tree: &mut Tree<T>, new_child_id: NodeId) -> (child: Option<NodeRef>)
        requires
            old(tree).wf(),
        ensures
            final(tree).wf(),
            final(tree).order() == old(tree).order(),
            final(tree).root_id() == old(tree).root_id(),
            final(tree)@ == appended(old(tree)@, self.id, new_child_id),
            child == node_ref(old(tree)@, new_child_id),
    {
        let last = tree.known(tree.links(self.id).children.1);
        let l = tree.links(new_child_id);
        tree.relink(new_child_id, Links { parent: self.id, prev_sibling: last, ..l });
        tree.set_next(last, new_child_id);
        let c = tree.links(self.id).children;
        let children = if !c.0.is_null() {
            (c.0, new_child_id)
        } else {
            (new_child_id, new_child_id)
        };
        tree.set_children(self.id, children);
        tree.get(new_child_id)
    }

    /// Prepends a new child to this node.
    pub fn prepend<T>(&self, tree: &mut Tree<T>, value: T) -> (child: Option<NodeRef>)
        requires
            old(tree).wf(),
            old(tree).size() < MAX_NODES,
        ensures
            final(tree).wf(),
            final(tree).root_id() == old(tree).root_id(),
            child matches Some(c) && !old(tree)@.contains_key(c.id)
                && final(tree).order() == old(tree).order().push(c.id) && exists|node: Node<T>|
                node.alone() && node.value == value && final(tree)@ == prepended(
                    old(tree)@.insert(c.id, node),
                    self.id,
                    c.id,
                ),
    {
        let new_child_id = tree.orphan(value);
        let ghost made = tree@;
        assert(made == old(tree)@.insert(new_child_id, made[new_child_id]));
        let first = tree.known(tree.links(self.id).children.0);
        let l = tree.links(new_child_id);
        tree.relink(new_child_id, Links { parent: self.id, next_sibling: first, ..l });
        tree.set_prev(first, new_child_id);
        let c = tree.links(self.id).children;
        let children = if !c.1.is_null() {
            (new_child_id, c.1)
        } else {
            (new_child_id, new_child_id)
        };
        tree.set_children(self.id, children);
        assert(tree@ == prepended(made, self.id, new_child_id));
        tree.get(new_child_id)
    }

    /// Inserts a new sibling before this node. Nothing is inserted, and
    /// `None` is returned, where this node has no parent; the new node then
    /// stays in the tree as an orphan.
    pub fn insert_before<T>(&self, tree: &mut Tree<T>, value: T) -> (sibling: Option<NodeRef>)
        requires
            old(tree).wf(),
            old(tree).size() < MAX_NODES,
        ensures
            final(tree).wf(),
            final(tree).root_id() == old(tree).root_id(),
            exists|id: NodeId, node: Node<T>|
                !old(tree)@.contains_key(id) && node.alone() && node.value == value
                    && final(tree).order() == old(tree).order().push(id)
                    && final(tree)@ == inserted_before(
                    old(tree)@.insert(id, node),
                    self.id,
                    id,
                ) && sibling == if has_parent(old(tree)@.insert(id, node), self.id) {
                    Some(NodeRef { id })
                } else {
                    None
                },
    {
        let new_sibling_id = tree.orphan(value);
        let ghost made = tree@;
        assert(made == old(tree)@.insert(new_sibling_id, made[new_sibling_id]));
        let sibling = self.insert_id_before(tree, new_sibling_id);
        assert(tree@ == inserted_before(made, self.id, new_sibling_id));
        sibling
    }

    /// Inserts a sibling before this node. Nothing changes, and `None` is
    /// returned, where this node has no parent.
    pub fn insert_id_before<T>(&self, tree: &mut Tree<T>, new_sibling_id: NodeId) -> (sibling:
        Option<NodeRef>)
        requires
            old(tree).wf(),
        ensures
            final(tree).wf(),
            final(tree).order() == old(tree).order(),
            final(tree).root_id() == old(tree).root_id(),
            final(tree)@ == inserted_before(old(tree)@, self.id, new_sibling_id),
            sibling == if has_parent(old(tree)@, self.id) {
                node_ref(old(tree)@, new_sibling_id)
            } else {
                None
            },
    {
        let parent = match self.parent(tree) {
            Some(p) => p.id,
            None => {
                return None;
            },
        };
        let prev = tree.known(tree.links(self.id).prev_sibling);
        let l = tree.links(new_sibling_id);
        tree.relink(
            new_sibling_id,
            Links { parent, prev_sibling: prev, next_sibling: self.id, ..l },
        );
        tree.set_next(prev, new_sibling_id);
        tree.set_prev(self.id, new_sibling_id);
        let c = tree.links(parent).children;
        if c.0 == self.id {
            tree.set_children(parent, (new_sibling_id, c.1));
        }
        tree.get(new_sibling_id)
    }

    /// Inserts a new sibling after this node. Nothing is inserted, and
    /// `None` is returned, where this node has no parent; the new node then
    /// stays in the tree as an orphan.
    pub fn insert_after<T>(&self, tree: &mut Tree<T>, value: T) -> (sibling: Option<NodeRef>)
        requires
            old(tree).wf(),
            old(tree).size() < MAX_NODES,
        ensures
            final(tree).wf(),
            final(tree).root_id() == old(tree).root_id(),
            exists|id: NodeId, node: Node<T>|
                !old(tree)@.contains_key(id) && node.alone() && node.value == value
                    && final(tree).order() == old(tree).order().push(id)
                    && final(tree)@ == inserted_after(
                    old(tree)@.insert(id, node),
                    self.id,
                    id,
                ) && sibling == if has_parent(old(tree)@.insert(id, node), self.id) {
                    Some(NodeRef { id })
                } else {
                    None
                },
    {
        let new_sibling_id = tree.orphan(value);
        let ghost made = tree@;
        assert(made == old(tree)@.insert(new_sibling_id, made[new_sibling_id]));
        let sibling = self.insert_id_after(tree, new_sibling_id);
        assert(tree@ == inserted_after(made, self.id, new_sibling_id));
        sibling
    }

    /// Inserts a sibling after this node. Nothing changes, and `None` is
    /// returned, where this node has no parent.
    pub fn insert_id_after<T>(&self, tree: &mut Tree<T>, new_sibling_id: NodeId) -> (sibling:
        Option<NodeRef>)
        requires
            old(tree).wf(),
        ensures
            final(tree).wf(),
            final(tree).order() == old(tree).order(),
            final(tree).root_id() == old(tree).root_id(),
            final(tree)@ == inserted_after(old(tree)@, self.id, new_sibling_id),
            sibling == if has_parent(old(tree)@, self.id) {
                node_ref(old(tree)@, new_sibling_id)
            } else {
                None
            },
    {
        let parent = match self.parent(tree) {
            Some(p) => p.id,
            None => {
                return None;
            },
        };
        let next = tree.known(tree.links(self.id).next_sibling);
        let l = tree.links(new_sibling_id);
        tree.relink(
            new_sibling_id,
            Links { parent, prev_sibling: self.id, next_sibling: next, ..l },
        );
        tree.set_prev(next, new_sibling_id);
        tree.set_next(self.id, new_sibling_id);
        let c = tree.links(parent).children;
        if c.1 == self.id {
            tree.set_children(parent, (c.0, new_sibling_id));
        }
        tree.get(new_sibling_id)
    }

    /// Reparents the children of a node, appending them to this node.
    pub fn reparent_from_id_append<T>(&self, tree: &mut Tree<T>, from_id: NodeId)
        requires
            old(tree).wf(),
        ensures
            final(tree).wf(),
            final(tree).order() == old(tree).order(),
            final(tree).root_id() == old(tree).root_id(),
            final(tree)@ == reparented(old(tree)@, self.id, from_id),
    {
        let moved = tree.links(from_id).children;
        tree.set_children(from_id, (NodeId::null(), NodeId::null()));
        if moved.0.is_null() && moved.1.is_null() {
            return ;
        }
        tree.set_parent(moved.0, self.id);
        tree.set_parent(moved.1, self.id);
        if tree.get(self.id).is_none() {
            return ;
        }
        let had = tree.links(self.id).children;
        if had.0.is_null() && had.1.is_null() {
            tree.set_children(self.id, moved);
            return ;
        }
        tree.set_next(had.1, moved.0);
        tree.set_prev(moved.0, had.1);
        tree.set_children(self.id, (had.0, moved.1));
    }
}

} // verus!
