//! The shape of a tree: what the links between nodes amount to when every
//! node lists its children in order, and how the operations on nodes keep
//! that shape.
//!
//! The operations of [`crate::tree`] are stated link by link and hold for any
//! arrangement of the nodes. The laws here say what they do to a tree that is
//! in shape: they change one list of children, in the expected way.

use vstd::prelude::*;
use crate::iter::{children_from, edges, next_edge, opened, step, Children, Edge, Toward};
use crate::tree::{node_ref, NodeRef};
use crate::tree::{
    appended, detached, inserted_after, inserted_before, known, links_at, prepended, put_children,
    put_next, put_parent, put_prev, reparented, with_links, Links, Node, NodeId,
};

verus! {

/// The id that names no node.
pub open spec fn nil() -> NodeId {
    NodeId::null_spec()
}

/// The first and the last of a list of children.
pub open spec fn ends(ks: Seq<NodeId>) -> (NodeId, NodeId) {
    if ks.len() == 0 {
        (nil(), nil())
    } else {
        (ks[0], ks.last())
    }
}

/// The sibling before the child at a place in a list of children.
pub open spec fn before(ks: Seq<NodeId>, i: int) -> NodeId {
    if i == 0 {
        nil()
    } else {
        ks[i - 1]
    }
}

/// The sibling after the child at a place in a list of children.
pub open spec fn after(ks: Seq<NodeId>, i: int) -> NodeId {
    if i == ks.len() - 1 {
        nil()
    } else {
        ks[i + 1]
    }
}

/// The child at place `i` of the list `ks` of the children of `n` is linked
/// to its parent and to the siblings beside it.
pub open spec fn child_in_place<T>(m: Map<NodeId, Node<T>>, n: NodeId, ks: Seq<NodeId>, i: int) -> bool {
    &&& m.contains_key(ks[i])
    &&& m[ks[i]].parent == n
    &&& m[ks[i]].prev_sibling == before(ks, i)
    &&& m[ks[i]].next_sibling == after(ks, i)
}

/// The node `n` agrees with the lists of children: its first and last child
/// are the ends of its list, each child of the list is in place, and the node
/// itself is in the list of its parent, or has neither parent nor siblings.
/// No node is its own parent.
pub open spec fn node_in_shape<T>(
    m: Map<NodeId, Node<T>>,
    kids: Map<NodeId, Seq<NodeId>>,
    n: NodeId,
) -> bool {
    &&& kids.contains_key(n)
    &&& kids[n].no_duplicates()
    &&& m[n].children == ends(kids[n])
    &&& forall|i: int| 0 <= i < kids[n].len() ==> #[trigger] child_in_place(m, n, kids[n], i)
    &&& m[n].parent != n
    &&& m[n].parent == nil() ==> m[n].prev_sibling == nil() && m[n].next_sibling == nil()
    &&& m[n].parent != nil() ==> m.contains_key(m[n].parent) && kids.contains_key(m[n].parent)
        && kids[m[n].parent].contains(n)
}

/// The nodes are linked as the lists of children say, which give for each
/// node its children from first to last.
pub open spec fn in_shape<T>(m: Map<NodeId, Node<T>>, kids: Map<NodeId, Seq<NodeId>>) -> bool {
    &&& !m.contains_key(nil())
    &&& forall|n: NodeId| m.contains_key(n) ==> #[trigger] node_in_shape(m, kids, n)
}

/// A tree that was just made is in shape: its root has no children.
pub proof fn new_tree_is_in_shape<T>(m: Map<NodeId, Node<T>>, root: NodeId)
    requires
        root != nil(),
        m == Map::<NodeId, Node<T>>::empty().insert(root, m[root]),
        m[root].alone(),
    ensures
        in_shape(m, Map::<NodeId, Seq<NodeId>>::empty().insert(root, Seq::<NodeId>::empty())),
{
    let kids = Map::<NodeId, Seq<NodeId>>::empty().insert(root, Seq::<NodeId>::empty());
    assert forall|n: NodeId| m.contains_key(n) implies #[trigger] node_in_shape(m, kids, n) by {
        assert(n == root);
    }
}

/// A new orphan keeps a tree in shape: it has no children, and no list
/// changes.
pub proof fn orphan_keeps_shape<T>(
    m: Map<NodeId, Node<T>>,
    kids: Map<NodeId, Seq<NodeId>>,
    id: NodeId,
    node: Node<T>,
)
    requires
        in_shape(m, kids),
        !m.contains_key(id),
        id != nil(),
        node.alone(),
    ensures
        in_shape(m.insert(id, node), kids.insert(id, Seq::<NodeId>::empty())),
{
    let m2 = m.insert(id, node);
    let kids2 = kids.insert(id, Seq::<NodeId>::empty());
    assert forall|n: NodeId| m2.contains_key(n) implies #[trigger] node_in_shape(m2, kids2, n) by {
        if n != id {
            assert(node_in_shape(m, kids, n));
            assert forall|i: int| 0 <= i < kids2[n].len() implies #[trigger] child_in_place(
                m2,
                n,
                kids2[n],
                i,
            ) by {
                assert(child_in_place(m, n, kids[n], i));
            }
            if m[n].parent != nil() {
                assert(m[n].parent != id);
            }
        }
    }
}

/// Appending a node that has no parent to a node of a tree in shape puts it
/// at the end of that node's children, and changes no other list.
pub proof fn append_adds_last_child<T>(
    m: Map<NodeId, Node<T>>,
    kids: Map<NodeId, Seq<NodeId>>,
    parent: NodeId,
    child: NodeId,
)
    requires
        in_shape(m, kids),
        m.contains_key(parent),
        m.contains_key(child),
        child != parent,
        m[child].parent == nil(),
    ensures
        in_shape(appended(m, parent, child), kids.insert(parent, kids[parent].push(child))),
{
    let ks = kids[parent];
    let ks2 = ks.push(child);
    let kids2 = kids.insert(parent, ks2);
    let out = appended(m, parent, child);
    assert(node_in_shape(m, kids, parent));
    assert(node_in_shape(m, kids, child));
    let last = ends(ks).1;
    assert(links_at(m, parent).children.1 == last);
    if ks.len() > 0 {
        assert(child_in_place(m, parent, ks, ks.len() - 1));
    }
    assert(known(m, last) == last);
    assert(last != child);
    assert(!ks.contains(child)) by {
        if ks.contains(child) {
            let i = choose|i: int| 0 <= i < ks.len() && ks[i] == child;
            assert(child_in_place(m, parent, ks, i));
        }
    }
    let m1 = with_links(m, child, Links { parent, prev_sibling: last, ..links_at(m, child) });
    let m2 = put_next(m1, last, child);
    let c = links_at(m2, parent).children;
    assert(m1.dom() =~= m.dom());
    assert(m2.dom() =~= m.dom());
    assert(c == m[parent].children);
    assert(out == put_children(
        m2,
        parent,
        if !c.0.is_null_spec() {
            (c.0, child)
        } else {
            (child, child)
        },
    ));
    assert(out.dom() =~= m.dom());
    assert(ks.len() > 0 ==> m.contains_key(ks[0]) && ks[0] != nil()) by {
        if ks.len() > 0 {
            assert(child_in_place(m, parent, ks, 0));
        }
    }
    assert forall|n: NodeId| out.contains_key(n) implies #[trigger] node_in_shape(out, kids2, n) by {
        assert(node_in_shape(m, kids, n));
        assert(kids2.contains_key(n));
        assert(kids2[n].no_duplicates());
        assert(out[n].children == ends(kids2[n]));
        assert forall|i: int| 0 <= i < kids2[n].len() implies #[trigger] child_in_place(
            out,
            n,
            kids2[n],
            i,
        ) by {
            if n == parent {
                if i < ks.len() {
                    assert(child_in_place(m, n, ks, i));
                }
            } else {
                assert(child_in_place(m, n, kids[n], i));
            }
        }
        if n == child {
            assert(ks2[ks.len() as int] == child);
            assert(kids2[parent].contains(child));
        } else {
            assert(out[n].parent == m[n].parent);
            if m[n].parent == nil() {
                assert(n != last);
                assert(out[n].prev_sibling == nil() && out[n].next_sibling == nil());
            } else {
                let q = m[n].parent;
                if q == parent {
                    let i = choose|i: int| 0 <= i < ks.len() && ks[i] == n;
                    assert(ks2[i] == n);
                }
                assert(kids2[q].contains(n));
            }
        }
    }
}

/// Prepending a node that has no parent to a node of a tree in shape puts
/// it at the front of that node's children, and changes no other list.
pub proof fn prepend_adds_first_child<T>(
    m: Map<NodeId, Node<T>>,
    kids: Map<NodeId, Seq<NodeId>>,
    parent: NodeId,
    child: NodeId,
)
    requires
        in_shape(m, kids),
        m.contains_key(parent),
        m.contains_key(child),
        child != parent,
        m[child].parent == nil(),
    ensures
        in_shape(prepended(m, parent, child), kids.insert(parent, seq![child] + kids[parent])),
{
    let ks = kids[parent];
    let ks2 = seq![child] + ks;
    let kids2 = kids.insert(parent, ks2);
    let out = prepended(m, parent, child);
    assert(node_in_shape(m, kids, parent));
    assert(node_in_shape(m, kids, child));
    let first = ends(ks).0;
    assert(links_at(m, parent).children.0 == first);
    if ks.len() > 0 {
        assert(child_in_place(m, parent, ks, 0));
        assert(child_in_place(m, parent, ks, ks.len() - 1));
    }
    assert(known(m, first) == first);
    assert(first != child);
    assert(!ks.contains(child)) by {
        if ks.contains(child) {
            let i = choose|i: int| 0 <= i < ks.len() && ks[i] == child;
            assert(child_in_place(m, parent, ks, i));
        }
    }
    let m1 = with_links(m, child, Links { parent, next_sibling: first, ..links_at(m, child) });
    let m2 = put_prev(m1, first, child);
    let c = links_at(m2, parent).children;
    assert(m1.dom() =~= m.dom());
    assert(m2.dom() =~= m.dom());
    assert(c == m[parent].children);
    assert(out == put_children(
        m2,
        parent,
        if !c.1.is_null_spec() {
            (child, c.1)
        } else {
            (child, child)
        },
    ));
    assert(out.dom() =~= m.dom());
    assert forall|n: NodeId| out.contains_key(n) implies #[trigger] node_in_shape(out, kids2, n) by {
        assert(node_in_shape(m, kids, n));
        assert(kids2.contains_key(n));
        assert(kids2[n].no_duplicates());
        assert(out[n].children == ends(kids2[n]));
        assert forall|i: int| 0 <= i < kids2[n].len() implies #[trigger] child_in_place(
            out,
            n,
            kids2[n],
            i,
        ) by {
            if n == parent {
                if i >= 1 {
                    assert(child_in_place(m, n, ks, i - 1));
                    assert(ks2[i] == ks[i - 1]);
                }
            } else {
                assert(child_in_place(m, n, kids[n], i));
            }
        }
        if n == child {
            assert(ks2[0] == child);
            assert(kids2[parent].contains(child));
        } else {
            assert(out[n].parent == m[n].parent);
            if m[n].parent == nil() {
                assert(n != first);
                assert(out[n].prev_sibling == nil() && out[n].next_sibling == nil());
            } else {
                let q = m[n].parent;
                if q == parent {
                    let i = choose|i: int| 0 <= i < ks.len() && ks[i] == n;
                    assert(ks2[i + 1] == n);
                }
                assert(kids2[q].contains(n));
            }
        }
    }
}

/// Inserting a node that has no parent before a child of a tree in shape
/// puts it right before that child in the list of the child's parent, and
/// changes no other list.
pub proof fn insert_before_adds_sibling<T>(
    m: Map<NodeId, Node<T>>,
    kids: Map<NodeId, Seq<NodeId>>,
    id: NodeId,
    sibling: NodeId,
    at: int,
)
    requires
        in_shape(m, kids),
        m.contains_key(id),
        m[id].parent != nil(),
        0 <= at < kids[m[id].parent].len(),
        kids[m[id].parent][at] == id,
        m.contains_key(sibling),
        sibling != id,
        sibling != m[id].parent,
        m[sibling].parent == nil(),
    ensures
        in_shape(
            inserted_before(m, id, sibling),
            kids.insert(m[id].parent, kids[m[id].parent].insert(at, sibling)),
        ),
{
    let parent = m[id].parent;
    let ks = kids[parent];
    let ks2 = ks.insert(at, sibling);
    let kids2 = kids.insert(parent, ks2);
    let out = inserted_before(m, id, sibling);
    assert(node_in_shape(m, kids, id));
    assert(node_in_shape(m, kids, parent));
    assert(node_in_shape(m, kids, sibling));
    assert(child_in_place(m, parent, ks, at));
    assert(child_in_place(m, parent, ks, 0));
    assert(child_in_place(m, parent, ks, ks.len() - 1));
    let prev = before(ks, at);
    if at > 0 {
        assert(child_in_place(m, parent, ks, at - 1));
    }
    assert(known(m, m[id].prev_sibling) == prev);
    assert(!ks.contains(sibling)) by {
        if ks.contains(sibling) {
            let i = choose|i: int| 0 <= i < ks.len() && ks[i] == sibling;
            assert(child_in_place(m, parent, ks, i));
        }
    }
    assert(prev != sibling);
    let m1 = with_links(
        m,
        sibling,
        Links { parent, prev_sibling: prev, next_sibling: id, ..links_at(m, sibling) },
    );
    let m2 = put_next(m1, prev, sibling);
    let m3 = put_prev(m2, id, sibling);
    let c = links_at(m3, parent).children;
    assert(m1.dom() =~= m.dom());
    assert(m2.dom() =~= m.dom());
    assert(m3.dom() =~= m.dom());
    assert(c == m[parent].children);
    assert(out == if c.0 == id {
        put_children(m3, parent, (sibling, c.1))
    } else {
        m3
    });
    assert(out.dom() =~= m.dom());
    assert((c.0 == id) == (at == 0));
    assert forall|n: NodeId| out.contains_key(n) implies #[trigger] node_in_shape(out, kids2, n) by {
        assert(node_in_shape(m, kids, n));
        assert(kids2.contains_key(n));
        assert(kids2[n].no_duplicates());
        assert(out[n].children == ends(kids2[n]));
        assert forall|i: int| 0 <= i < kids2[n].len() implies #[trigger] child_in_place(
            out,
            n,
            kids2[n],
            i,
        ) by {
            if n == parent {
                if i < at {
                    assert(child_in_place(m, n, ks, i));
                    assert(ks2[i] == ks[i]);
                } else if i > at {
                    assert(child_in_place(m, n, ks, i - 1));
                    assert(ks2[i] == ks[i - 1]);
                }
            } else {
                assert(child_in_place(m, n, kids[n], i));
            }
        }
        if n == sibling {
            assert(ks2[at] == sibling);
            assert(kids2[parent].contains(sibling));
        } else {
            assert(out[n].parent == m[n].parent);
            if m[n].parent == nil() {
                assert(n != prev);
                assert(n != id);
                assert(out[n].prev_sibling == nil() && out[n].next_sibling == nil());
            } else {
                let q = m[n].parent;
                if q == parent {
                    let i = choose|i: int| 0 <= i < ks.len() && ks[i] == n;
                    if i < at {
                        assert(ks2[i] == n);
                    } else {
                        assert(ks2[i + 1] == n);
                    }
                }
                assert(kids2[q].contains(n));
            }
        }
    }
}

/// Inserting a node that has no parent after a child of a tree in shape
/// puts it right after that child in the list of the child's parent, and
/// changes no other list.
pub proof fn insert_after_adds_sibling<T>(
    m: Map<NodeId, Node<T>>,
    kids: Map<NodeId, Seq<NodeId>>,
    id: NodeId,
    sibling: NodeId,
    at: int,
)
    requires
        in_shape(m, kids),
        m.contains_key(id),
        m[id].parent != nil(),
        0 <= at < kids[m[id].parent].len(),
        kids[m[id].parent][at] == id,
        m.contains_key(sibling),
        sibling != id,
        sibling != m[id].parent,
        m[sibling].parent == nil(),
    ensures
        in_shape(
            inserted_after(m, id, sibling),
            kids.insert(m[id].parent, kids[m[id].parent].insert(at + 1, sibling)),
        ),
{
    let parent = m[id].parent;
    let ks = kids[parent];
    let ks2 = ks.insert(at + 1, sibling);
    let kids2 = kids.insert(parent, ks2);
    let out = inserted_after(m, id, sibling);
    assert(node_in_shape(m, kids, id));
    assert(node_in_shape(m, kids, parent));
    assert(node_in_shape(m, kids, sibling));
    assert(child_in_place(m, parent, ks, at));
    assert(child_in_place(m, parent, ks, 0));
    assert(child_in_place(m, parent, ks, ks.len() - 1));
    let next = after(ks, at);
    if at < ks.len() - 1 {
        assert(child_in_place(m, parent, ks, at + 1));
    }
    assert(known(m, m[id].next_sibling) == next);
    assert(!ks.contains(sibling)) by {
        if ks.contains(sibling) {
            let i = choose|i: int| 0 <= i < ks.len() && ks[i] == sibling;
            assert(child_in_place(m, parent, ks, i));
        }
    }
    assert(next != sibling);
    let m1 = with_links(
        m,
        sibling,
        Links { parent, prev_sibling: id, next_sibling: next, ..links_at(m, sibling) },
    );
    let m2 = put_prev(m1, next, sibling);
    let m3 = put_next(m2, id, sibling);
    let c = links_at(m3, parent).children;
    assert(m1.dom() =~= m.dom());
    assert(m2.dom() =~= m.dom());
    assert(m3.dom() =~= m.dom());
    assert(c == m[parent].children);
    assert(out == if c.1 == id {
        put_children(m3, parent, (c.0, sibling))
    } else {
        m3
    });
    assert(out.dom() =~= m.dom());
    assert((c.1 == id) == (at == ks.len() - 1));
    assert forall|n: NodeId| out.contains_key(n) implies #[trigger] node_in_shape(out, kids2, n) by {
        assert(node_in_shape(m, kids, n));
        assert(kids2.contains_key(n));
        assert(kids2[n].no_duplicates());
        assert(out[n].children == ends(kids2[n]));
        assert forall|i: int| 0 <= i < kids2[n].len() implies #[trigger] child_in_place(
            out,
            n,
            kids2[n],
            i,
        ) by {
            if n == parent {
                if i <= at {
                    assert(child_in_place(m, n, ks, i));
                    assert(ks2[i] == ks[i]);
                } else if i > at + 1 {
                    assert(child_in_place(m, n, ks, i - 1));
                    assert(ks2[i] == ks[i - 1]);
                }
            } else {
                assert(child_in_place(m, n, kids[n], i));
            }
        }
        if n == sibling {
            assert(ks2[at + 1] == sibling);
            assert(kids2[parent].contains(sibling));
        } else {
            assert(out[n].parent == m[n].parent);
            if m[n].parent == nil() {
                assert(n != next);
                assert(n != id);
                assert(out[n].prev_sibling == nil() && out[n].next_sibling == nil());
            } else {
                let q = m[n].parent;
                if q == parent {
                    let i = choose|i: int| 0 <= i < ks.len() && ks[i] == n;
                    if i <= at {
                        assert(ks2[i] == n);
                    } else {
                        assert(ks2[i + 1] == n);
                    }
                }
                assert(kids2[q].contains(n));
            }
        }
    }
}

/// Detaching a child of a tree in shape takes it out of the list of its
/// parent and leaves it without parent and siblings; it keeps its own
/// children, and no other list changes.
pub proof fn detach_removes_child<T>(
    m: Map<NodeId, Node<T>>,
    kids: Map<NodeId, Seq<NodeId>>,
    id: NodeId,
    at: int,
)
    requires
        in_shape(m, kids),
        m.contains_key(id),
        m[id].parent != nil(),
        0 <= at < kids[m[id].parent].len(),
        kids[m[id].parent][at] == id,
    ensures
        in_shape(detached(m, id), kids.insert(m[id].parent, kids[m[id].parent].remove(at))),
        detached(m, id)[id].parent == nil(),
        detached(m, id)[id].children == m[id].children,
{
    let parent = m[id].parent;
    let ks = kids[parent];
    let ks2 = ks.remove(at);
    let kids2 = kids.insert(parent, ks2);
    let out = detached(m, id);
    let l = links_at(m, id);
    assert(node_in_shape(m, kids, id));
    assert(node_in_shape(m, kids, parent));
    assert(child_in_place(m, parent, ks, at));
    assert(child_in_place(m, parent, ks, 0));
    assert(child_in_place(m, parent, ks, ks.len() - 1));
    if at > 0 {
        assert(child_in_place(m, parent, ks, at - 1));
    }
    if at < ks.len() - 1 {
        assert(child_in_place(m, parent, ks, at + 1));
    }
    let m1 = with_links(m, id, Links { parent: nil(), prev_sibling: nil(), next_sibling: nil(), ..l });
    let m2 = if !l.prev_sibling.is_null_spec() {
        put_next(m1, l.prev_sibling, l.next_sibling)
    } else {
        m1
    };
    let m3 = if !l.next_sibling.is_null_spec() {
        put_prev(m2, l.next_sibling, l.prev_sibling)
    } else {
        m2
    };
    let c = links_at(m3, parent).children;
    assert(m1.dom() =~= m.dom());
    assert(m2.dom() =~= m.dom());
    assert(m3.dom() =~= m.dom());
    assert(c == m[parent].children);
    assert(out.dom() =~= m.dom());
    assert((c.0 == c.1) == (ks.len() == 1));
    assert((c.0 == id) == (at == 0));
    assert((c.1 == id) == (at == ks.len() - 1));
    assert forall|n: NodeId| out.contains_key(n) implies #[trigger] node_in_shape(out, kids2, n) by {
        assert(node_in_shape(m, kids, n));
        assert(kids2.contains_key(n));
        assert(kids2[n].no_duplicates());
        assert(out[n].children == ends(kids2[n]));
        assert forall|i: int| 0 <= i < kids2[n].len() implies #[trigger] child_in_place(
            out,
            n,
            kids2[n],
            i,
        ) by {
            if n == parent {
                if i < at {
                    assert(child_in_place(m, n, ks, i));
                    assert(ks2[i] == ks[i]);
                } else {
                    assert(child_in_place(m, n, ks, i + 1));
                    assert(ks2[i] == ks[i + 1]);
                }
            } else {
                assert(child_in_place(m, n, kids[n], i));
                assert(kids[n][i] != id);
            }
        }
        if n != id {
            assert(out[n].parent == m[n].parent);
            if m[n].parent == nil() {
                assert(out[n].prev_sibling == nil() && out[n].next_sibling == nil());
            } else {
                let q = m[n].parent;
                if q == parent {
                    let i = choose|i: int| 0 <= i < ks.len() && ks[i] == n;
                    if i < at {
                        assert(ks2[i] == n);
                    } else {
                        assert(ks2[i - 1] == n);
                    }
                }
                assert(kids2[q].contains(n));
            }
        }
    }
}

/// Moving the children of one node of a tree in shape to another puts them,
/// in their order, behind the children that the other node has, and leaves
/// the first node without children. Only the first and the last of the
/// moved children are told their new parent, so the law speaks of at most
/// two children; the node that takes them must not be one of them.
pub proof fn reparent_moves_children<T>(
    m: Map<NodeId, Node<T>>,
    kids: Map<NodeId, Seq<NodeId>>,
    id: NodeId,
    from: NodeId,
)
    requires
        in_shape(m, kids),
        m.contains_key(id),
        m.contains_key(from),
        id != from,
        kids[from].len() <= 2,
        !kids[from].contains(id),
    ensures
        in_shape(
            reparented(m, id, from),
            kids.insert(from, Seq::<NodeId>::empty()).insert(id, kids[id] + kids[from]),
        ),
{
    let ks = kids[id];
    let fs = kids[from];
    let ks2 = ks + fs;
    let kids2 = kids.insert(from, Seq::<NodeId>::empty()).insert(id, ks2);
    let out = reparented(m, id, from);
    assert(node_in_shape(m, kids, id));
    assert(node_in_shape(m, kids, from));
    let moved = links_at(m, from).children;
    assert(moved == ends(fs));
    let m1 = put_children(m, from, (nil(), nil()));
    assert(m1.dom() =~= m.dom());
    if ks.len() > 0 {
        assert(child_in_place(m, id, ks, 0));
        assert(child_in_place(m, id, ks, ks.len() - 1));
    }
    if fs.len() == 0 {
        assert(out == m1);
        assert(ks2 =~= ks);
    } else {
        assert(child_in_place(m, from, fs, 0));
        assert(child_in_place(m, from, fs, fs.len() - 1));
        let m2 = put_parent(m1, moved.0, id);
        let m3 = put_parent(m2, moved.1, id);
        assert(m2.dom() =~= m.dom());
        assert(m3.dom() =~= m.dom());
        let had = m3[id].children;
        assert(had == m[id].children);
        if ks.len() == 0 {
            assert(out == put_children(m3, id, moved));
            assert(ks2 =~= fs);
        } else {
            let m4 = put_next(m3, had.1, moved.0);
            let m5 = put_prev(m4, moved.0, had.1);
            assert(m4.dom() =~= m.dom());
            assert(m5.dom() =~= m.dom());
            assert(out == put_children(m5, id, (had.0, moved.1)));
        }
    }
    assert(out.dom() =~= m.dom());
    assert forall|i: int, j: int| 0 <= i < ks.len() && 0 <= j < fs.len() implies ks[i] != fs[j] by {
        assert(child_in_place(m, id, ks, i));
        assert(child_in_place(m, from, fs, j));
    }
    assert(ks2.no_duplicates());
    assert forall|n: NodeId| out.contains_key(n) implies #[trigger] node_in_shape(out, kids2, n) by {
        assert(node_in_shape(m, kids, n));
        assert(kids2.contains_key(n));
        assert(kids2[n].no_duplicates());
        assert(out[n].children == ends(kids2[n]));
        assert forall|i: int| 0 <= i < kids2[n].len() implies #[trigger] child_in_place(
            out,
            n,
            kids2[n],
            i,
        ) by {
            if n == id {
                if i < ks.len() {
                    assert(child_in_place(m, id, ks, i));
                    assert(ks2[i] == ks[i]);
                } else {
                    assert(child_in_place(m, from, fs, i - ks.len()));
                    assert(ks2[i] == fs[i - ks.len()]);
                }
            } else {
                assert(child_in_place(m, n, kids[n], i));
            }
        }
        if fs.contains(n) {
            let j = choose|j: int| 0 <= j < fs.len() && fs[j] == n;
            assert(child_in_place(m, from, fs, j));
            assert(ks2[ks.len() + j] == n);
            assert(out[n].parent == id);
        } else {
            assert(out[n].parent == m[n].parent);
            if m[n].parent == nil() {
                if ks.len() > 0 {
                    assert(n != ks.last());
                }
                assert(out[n].prev_sibling == nil() && out[n].next_sibling == nil());
            } else {
                let q = m[n].parent;
                if q == id {
                    let i = choose|i: int| 0 <= i < ks.len() && ks[i] == n;
                    assert(ks2[i] == n);
                }
                assert(q != from);
                assert(kids2[q].contains(n));
            }
        }
    }
}

/// References to the nodes of a list of ids.
pub open spec fn refs(ks: Seq<NodeId>) -> Seq<NodeRef> {
    ks.map_values(|id: NodeId| NodeRef { id })
}

/// The walk over the children of a node, as [`NodeRef::children`] starts it.
pub open spec fn children_walk<T>(m: Map<NodeId, Node<T>>, n: NodeId) -> Children {
    Children {
        front: step(m, Some(NodeRef { id: n }), Toward::FirstChild),
        back: step(m, Some(NodeRef { id: n }), Toward::LastChild),
    }
}

proof fn walk_gives_the_rest<T>(
    m: Map<NodeId, Node<T>>,
    kids: Map<NodeId, Seq<NodeId>>,
    n: NodeId,
    from: int,
    fuel: nat,
)
    requires
        in_shape(m, kids),
        m.contains_key(n),
        0 <= from < kids[n].len(),
        fuel >= kids[n].len() - from,
    ensures
        children_from(
            m,
            Children { front: Some(NodeRef { id: kids[n][from] }), back: Some(NodeRef { id: kids[n].last() }) },
            fuel,
        ) == refs(kids[n].subrange(from, kids[n].len() as int)),
    decreases kids[n].len() - from,
{
    let ks = kids[n];
    let walk = Children { front: Some(NodeRef { id: ks[from] }), back: Some(NodeRef { id: ks.last() }) };
    assert(node_in_shape(m, kids, n));
    assert(child_in_place(m, n, ks, from));
    let rest = ks.subrange(from, ks.len() as int);
    if from == ks.len() - 1 {
        assert(children_from(m, Children { front: None, back: None }, (fuel - 1) as nat)
            =~= Seq::<NodeRef>::empty());
        assert(refs(rest) =~= seq![NodeRef { id: ks[from] }]);
        assert(children_from(m, walk, fuel) =~= seq![NodeRef { id: ks[from] }]);
    } else {
        assert(ks[from] != ks.last());
        assert(child_in_place(m, n, ks, from + 1));
        let next = Children { front: Some(NodeRef { id: ks[from + 1] }), back: walk.back };
        assert(step(m, walk.front, Toward::NextSibling) == Some(NodeRef { id: ks[from + 1] }));
        walk_gives_the_rest(m, kids, n, from + 1, (fuel - 1) as nat);
        assert(refs(rest) =~= seq![NodeRef { id: ks[from] }] + refs(
            ks.subrange(from + 1, ks.len() as int),
        ));
        assert(children_from(m, walk, fuel) =~= seq![NodeRef { id: ks[from] }] + children_from(
            m,
            next,
            (fuel - 1) as nat,
        ));
    }
}

/// In a tree in shape the walk over the children of a node visits exactly
/// the children of its list, from first to last, and ends within as many
/// steps as the node has children.
pub proof fn children_walk_visits_the_list<T>(
    m: Map<NodeId, Node<T>>,
    kids: Map<NodeId, Seq<NodeId>>,
    n: NodeId,
    fuel: nat,
)
    requires
        in_shape(m, kids),
        m.contains_key(n),
        fuel >= kids[n].len(),
    ensures
        children_from(m, children_walk(m, n), fuel) == refs(kids[n]),
{
    let ks = kids[n];
    assert(node_in_shape(m, kids, n));
    if ks.len() == 0 {
        assert(refs(ks) =~= Seq::<NodeRef>::empty());
        assert(children_walk(m, n) == Children { front: None, back: None });
        assert(children_from(m, children_walk(m, n), fuel) =~= Seq::<NodeRef>::empty());
    } else {
        assert(child_in_place(m, n, ks, 0));
        assert(child_in_place(m, n, ks, ks.len() - 1));
        walk_gives_the_rest(m, kids, n, 0, fuel);
        assert(ks.subrange(0, ks.len() as int) =~= ks);
    }
}

/// Each child ranks below its parent. A tree with such ranks has no node
/// below itself.
pub open spec fn ranked(kids: Map<NodeId, Seq<NodeId>>, rank: Map<NodeId, nat>) -> bool {
    forall|n: NodeId, i: int|
        kids.contains_key(n) && 0 <= i < kids[n].len() ==> rank[#[trigger] kids[n][i]] < rank[n]
}

/// The walk through the subtree of a node, down to a depth: into the node,
/// through the subtrees of its children in order, and out of the node.
pub open spec fn tour(kids: Map<NodeId, Seq<NodeId>>, n: NodeId, depth: nat) -> Seq<Edge>
    decreases depth, 0nat, 0nat,
{
    seq![Edge::Open(NodeRef { id: n })] + (if depth == 0 {
        Seq::<Edge>::empty()
    } else {
        tours(kids, kids[n], (depth - 1) as nat)
    }) + seq![Edge::Close(NodeRef { id: n })]
}

/// The walks through the subtrees of a list of nodes, one after the other.
pub open spec fn tours(kids: Map<NodeId, Seq<NodeId>>, ks: Seq<NodeId>, depth: nat) -> Seq<Edge>
    decreases depth, 1nat, ks.len(),
{
    if ks.len() == 0 {
        Seq::<Edge>::empty()
    } else {
        tour(kids, ks[0], depth) + tours(kids, ks.drop_first(), depth)
    }
}

proof fn edges_unfold<T>(m: Map<NodeId, Node<T>>, root: NodeRef, edge: Option<Edge>, fuel: nat)
    ensures
        edges(m, root, edge, fuel) == if fuel == 0 {
            Seq::<Edge>::empty()
        } else {
            match next_edge(m, root, edge) {
                None => Seq::<Edge>::empty(),
                Some(e) => seq![e] + edges(m, root, Some(e), (fuel - 1) as nat),
            }
        },
{
}

proof fn tour_of_subtree<T>(
    m: Map<NodeId, Node<T>>,
    kids: Map<NodeId, Seq<NodeId>>,
    rank: Map<NodeId, nat>,
    root: NodeRef,
    x: NodeId,
    depth: nat,
    prev: Option<Edge>,
    fuel: nat,
)
    requires
        in_shape(m, kids),
        ranked(kids, rank),
        m.contains_key(x),
        rank[x] <= depth,
        rank[x] <= rank[root.id],
        next_edge(m, root, prev) == Some(Edge::Open(NodeRef { id: x })),
        fuel >= tour(kids, x, depth).len(),
    ensures
        edges(m, root, prev, fuel) == tour(kids, x, depth) + edges(
            m,
            root,
            Some(Edge::Close(NodeRef { id: x })),
            (fuel - tour(kids, x, depth).len()) as nat,
        ),
    decreases depth, 0nat, 0nat,
{
    let ks = kids[x];
    let open = Edge::Open(NodeRef { id: x });
    let close = Edge::Close(NodeRef { id: x });
    assert(node_in_shape(m, kids, x));
    edges_unfold(m, root, prev, fuel);
    edges_unfold(m, root, Some(open), (fuel - 1) as nat);
    if ks.len() == 0 {
        assert(tours(kids, ks, (depth - 1) as nat) =~= Seq::<Edge>::empty());
        assert(tour(kids, x, depth) =~= seq![open, close]);
        assert(next_edge(m, root, Some(open)) == Some(close));
        assert(edges(m, root, prev, fuel) =~= seq![open, close] + edges(
            m,
            root,
            Some(close),
            (fuel - 2) as nat,
        ));
    } else {
        assert(child_in_place(m, x, ks, 0));
        assert(child_in_place(m, x, ks, ks.len() - 1));
        assert(rank[ks[0]] < rank[x]);
        let below = (depth - 1) as nat;
        let inner = tours(kids, ks, below);
        assert(tour(kids, x, depth) =~= seq![open] + inner + seq![close]);
        assert(next_edge(m, root, Some(open)) == Some(Edge::Open(NodeRef { id: ks[0] })));
        assert(ks.subrange(0, ks.len() as int) =~= ks);
        tours_of_children(m, kids, rank, root, x, 0, below, Some(open), (fuel - 1) as nat);
        let last = Edge::Close(NodeRef { id: ks.last() });
        let left = (fuel - 1 - inner.len()) as nat;
        assert(edges(m, root, Some(open), (fuel - 1) as nat) == inner + edges(
            m,
            root,
            Some(last),
            left,
        ));
        edges_unfold(m, root, Some(last), left);
        assert(rank[ks[ks.len() - 1]] < rank[x]);
        assert(NodeRef { id: ks.last() } != root);
        assert(next_edge(m, root, Some(last)) == Some(close));
        assert(edges(m, root, prev, fuel) =~= seq![open] + inner + seq![close] + edges(
            m,
            root,
            Some(close),
            (left - 1) as nat,
        ));
    }
}

proof fn tours_of_children<T>(
    m: Map<NodeId, Node<T>>,
    kids: Map<NodeId, Seq<NodeId>>,
    rank: Map<NodeId, nat>,
    root: NodeRef,
    p: NodeId,
    from: int,
    depth: nat,
    prev: Option<Edge>,
    fuel: nat,
)
    requires
        in_shape(m, kids),
        ranked(kids, rank),
        m.contains_key(p),
        0 <= from < kids[p].len(),
        rank[p] <= depth + 1,
        rank[p] <= rank[root.id],
        next_edge(m, root, prev) == Some(Edge::Open(NodeRef { id: kids[p][from] })),
        fuel >= tours(kids, kids[p].subrange(from, kids[p].len() as int), depth).len(),
    ensures
        edges(m, root, prev, fuel) == tours(
            kids,
            kids[p].subrange(from, kids[p].len() as int),
            depth,
        ) + edges(
            m,
            root,
            Some(Edge::Close(NodeRef { id: kids[p].last() })),
            (fuel - tours(kids, kids[p].subrange(from, kids[p].len() as int), depth).len()) as nat,
        ),
    decreases depth, 1nat, kids[p].len() - from,
{
    let ks = kids[p];
    let rest = ks.subrange(from, ks.len() as int);
    let c = ks[from];
    assert(node_in_shape(m, kids, p));
    assert(child_in_place(m, p, ks, from));
    assert(rank[ks[from]] < rank[p]);
    assert(rest[0] == c);
    assert(rest.drop_first() =~= ks.subrange(from + 1, ks.len() as int));
    let first = tour(kids, c, depth);
    let others = tours(kids, ks.subrange(from + 1, ks.len() as int), depth);
    assert(tours(kids, rest, depth) == first + others);
    tour_of_subtree(m, kids, rank, root, c, depth, prev, fuel);
    let close = Edge::Close(NodeRef { id: c });
    let left = (fuel - first.len()) as nat;
    assert(NodeRef { id: c } != root);
    if from == ks.len() - 1 {
        assert(others =~= Seq::<Edge>::empty());
        assert(first + others =~= first);
    } else {
        assert(child_in_place(m, p, ks, from + 1));
        edges_unfold(m, root, Some(close), left);
        tours_of_children(m, kids, rank, root, p, from + 1, depth, Some(close), left);
        assert(edges(m, root, prev, fuel) =~= first + others + edges(
            m,
            root,
            Some(Edge::Close(NodeRef { id: ks.last() })),
            (left - others.len()) as nat,
        ));
    }
}

/// In a ranked tree in shape the traversal of a subtree walks into its
/// root, through the subtrees of the children in order, and out of the root,
/// and ends there, once it is given as many steps as that walk has edges.
pub proof fn traverse_walks_the_subtree<T>(
    m: Map<NodeId, Node<T>>,
    kids: Map<NodeId, Seq<NodeId>>,
    rank: Map<NodeId, nat>,
    root: NodeRef,
    depth: nat,
    fuel: nat,
)
    requires
        in_shape(m, kids),
        ranked(kids, rank),
        m.contains_key(root.id),
        rank[root.id] <= depth,
        fuel >= tour(kids, root.id, depth).len(),
    ensures
        edges(m, root, None, fuel) == tour(kids, root.id, depth),
{
    let whole = tour(kids, root.id, depth);
    tour_of_subtree(m, kids, rank, root, root.id, depth, None, fuel);
    let left = (fuel - whole.len()) as nat;
    edges_unfold(m, root, Some(Edge::Close(root)), left);
    assert(edges(m, root, Some(Edge::Close(root)), left) =~= Seq::<Edge>::empty());
    assert(whole + Seq::<Edge>::empty() =~= whole);
}

/// The nodes of a subtree, down to a depth, each before its children and
/// the children in order.
pub open spec fn preorder(kids: Map<NodeId, Seq<NodeId>>, n: NodeId, depth: nat) -> Seq<NodeRef>
    decreases depth, 0nat, 0nat,
{
    seq![NodeRef { id: n }] + if depth == 0 {
        Seq::<NodeRef>::empty()
    } else {
        preorders(kids, kids[n], (depth - 1) as nat)
    }
}

/// The nodes of the subtrees of a list of nodes, one subtree after the other.
pub open spec fn preorders(kids: Map<NodeId, Seq<NodeId>>, ks: Seq<NodeId>, depth: nat) -> Seq<
    NodeRef,
>
    decreases depth, 1nat, ks.len(),
{
    if ks.len() == 0 {
        Seq::<NodeRef>::empty()
    } else {
        preorder(kids, ks[0], depth) + preorders(kids, ks.drop_first(), depth)
    }
}

proof fn opened_of_joined(a: Seq<Edge>, b: Seq<Edge>)
    ensures
        opened(a + b) == opened(a) + opened(b),
    decreases b.len(),
{
    if b.len() == 0 {
        assert(a + b =~= a);
        assert(opened(a) + opened(b) =~= opened(a));
    } else {
        assert((a + b).drop_last() =~= a + b.drop_last());
        assert((a + b).last() == b.last());
        opened_of_joined(a, b.drop_last());
        match b.last() {
            Edge::Open(node) => {
                assert(opened(a) + opened(b.drop_last()).push(node) =~= (opened(a) + opened(
                    b.drop_last(),
                )).push(node));
            },
            Edge::Close(_) => {},
        }
    }
}

/// The nodes that the walk through a subtree enters are the nodes of the
/// subtree in preorder: each node before its children, the children in order.
pub proof fn tour_enters_in_preorder(kids: Map<NodeId, Seq<NodeId>>, n: NodeId, depth: nat)
    ensures
        opened(tour(kids, n, depth)) == preorder(kids, n, depth),
    decreases depth, 0nat, 0nat,
{
    let open = seq![Edge::Open(NodeRef { id: n })];
    let close = seq![Edge::Close(NodeRef { id: n })];
    let inner = if depth == 0 {
        Seq::<Edge>::empty()
    } else {
        tours(kids, kids[n], (depth - 1) as nat)
    };
    if depth > 0 {
        tours_enter_in_preorder(kids, kids[n], (depth - 1) as nat);
    }
    opened_of_joined(open + inner, close);
    opened_of_joined(open, inner);
    assert(open.drop_last() =~= Seq::<Edge>::empty());
    assert(close.drop_last() =~= Seq::<Edge>::empty());
    assert(opened(Seq::<Edge>::empty()) =~= Seq::<NodeRef>::empty());
    assert(open.last() == Edge::Open(NodeRef { id: n }));
    assert(opened(open) =~= seq![NodeRef { id: n }]);
    assert(opened(close) =~= Seq::<NodeRef>::empty());
    assert(opened(inner) == if depth == 0 {
        Seq::<NodeRef>::empty()
    } else {
        preorders(kids, kids[n], (depth - 1) as nat)
    });
    assert(opened(open) + opened(inner) + opened(close) =~= preorder(kids, n, depth));
}

proof fn tours_enter_in_preorder(kids: Map<NodeId, Seq<NodeId>>, ks: Seq<NodeId>, depth: nat)
    ensures
        opened(tours(kids, ks, depth)) == preorders(kids, ks, depth),
    decreases depth, 1nat, ks.len(),
{
    if ks.len() > 0 {
        tour_enters_in_preorder(kids, ks[0], depth);
        tours_enter_in_preorder(kids, ks.drop_first(), depth);
        opened_of_joined(tour(kids, ks[0], depth), tours(kids, ks.drop_first(), depth));
    }
}

} // verus!
