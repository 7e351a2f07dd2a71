use sws::iter::Edge;
use sws::tree::{NodeId, NodeRef, Tree};

fn leaves(root: char, children: &[char]) -> Tree<char> {
    let mut tree = Tree::new(root);
    let node = tree.root();
    for c in children {
        node.append(&mut tree, *c).unwrap();
    }
    tree
}

fn values(tree: &Tree<char>, nodes: Vec<NodeRef>) -> Vec<char> {
    nodes
        .into_iter()
        .filter_map(|nref| nref.map_value(tree, |&c| c))
        .collect()
}

/// 'a' => { 'b' => { 'd', 'e' }, 'c' }
fn two_levels() -> Tree<char> {
    let mut tree = Tree::new('a');
    let root = tree.root();
    let b = root.append(&mut tree, 'b').unwrap();
    b.append(&mut tree, 'd').unwrap();
    b.append(&mut tree, 'e').unwrap();
    root.append(&mut tree, 'c').unwrap();
    tree
}

#[test]
fn try_into_iter() {
    let tree = leaves('a', &['b', 'c', 'd']);
    assert_eq!(vec!['a', 'b', 'c', 'd'], tree.try_into_iter());
}

#[test]
fn iter_values() {
    let tree = leaves('a', &['b', 'c', 'd']);
    let nodes = tree.nodes();
    assert_eq!(
        vec!['a', 'b', 'c', 'd'],
        nodes
            .into_iter()
            .map(|(_, node)| *node.value())
            .collect::<Vec<_>>()
    );
}

#[test]
fn iter_values_mut() {
    let mut tree = leaves('a', &['b', 'c', 'd']);

    let ids: Vec<NodeId> = tree.nodes().into_iter().map(|(id, _)| id).collect();
    for id in ids {
        let value = tree.value_mut(id).unwrap();
        let c = value.to_ascii_uppercase();
        *value = c;
    }
    assert!(tree.value_mut(NodeId::null()).is_none());

    let nodes = tree.nodes();
    assert_eq!(
        vec!['A', 'B', 'C', 'D'],
        nodes
            .into_iter()
            .map(|(_, node)| *node.value())
            .collect::<Vec<_>>()
    );
}

#[test]
fn iter_nodes() {
    let mut tree = Tree::new('a');
    {
        let root = tree.root();
        let b = root.append(&mut tree, 'b').unwrap();
        b.append(&mut tree, 'c').unwrap();
        root.append(&mut tree, 'd').unwrap();
    }

    let e = tree.orphan('e');
    let e = tree.get(e).unwrap();
    e.append(&mut tree, 'f');
    tree.root().append(&mut tree, 'g');

    let nodes = tree.nodes();
    assert_eq!(
        vec!['a', 'b', 'c', 'd', 'e', 'f', 'g'],
        nodes
            .into_iter()
            .map(|(_, node)| *node.value())
            .collect::<Vec<_>>()
    );
}

#[test]
fn iter_ancestors() {
    let mut tree = Tree::new('a');
    {
        let root = tree.root();
        let b = root.append(&mut tree, 'b').unwrap();
        let c = b.append(&mut tree, 'c').unwrap();
        c.append(&mut tree, 'd').unwrap();
    }
    let d = tree
        .root()
        .last_child(&tree)
        .unwrap()
        .last_child(&tree)
        .unwrap()
        .last_child(&tree)
        .unwrap();

    assert_eq!(
        vec!['c', 'b', 'a'],
        values(&tree, d.ancestors(&tree).collect(&tree))
    );
}

#[test]
fn iter_prev_siblings() {
    let tree = leaves('a', &['b', 'c', 'd']);

    assert_eq!(
        vec!['c', 'b'],
        values(
            &tree,
            tree.root()
                .last_child(&tree)
                .unwrap()
                .prev_siblings(&tree)
                .collect(&tree)
        )
    );
}

#[test]
fn iter_next_siblings() {
    let tree = leaves('a', &['b', 'c', 'd']);

    assert_eq!(
        vec!['c', 'd'],
        values(
            &tree,
            tree.root()
                .first_child(&tree)
                .unwrap()
                .next_siblings(&tree)
                .collect(&tree)
        )
    );
}

#[test]
fn iter_children() {
    let tree = leaves('a', &['b', 'c', 'd']);

    assert_eq!(
        vec!['b', 'c', 'd'],
        values(&tree, tree.root().children(&tree).collect(&tree))
    );
}

#[test]
fn iter_children_rev() {
    let tree = leaves('a', &['b', 'c', 'd']);

    assert_eq!(
        vec!['d', 'c', 'b'],
        values(&tree, tree.root().children(&tree).collect_rev(&tree))
    );
}

#[test]
fn iter_first_children() {
    let tree = two_levels();

    assert_eq!(
        vec!['b', 'd'],
        values(&tree, tree.root().first_children(&tree).collect(&tree))
    );
}

#[test]
fn iter_last_children() {
    let mut tree = Tree::new('a');
    {
        let root = tree.root();
        root.append(&mut tree, 'b').unwrap();
        let c = root.append(&mut tree, 'c').unwrap();
        c.append(&mut tree, 'd').unwrap();
        c.append(&mut tree, 'e').unwrap();
    }

    assert_eq!(
        vec!['c', 'e'],
        values(&tree, tree.root().last_children(&tree).collect(&tree))
    );
}

#[test]
fn iter_traverse() {
    #[derive(Debug, PartialEq, Eq)]
    enum Value {
        Open(char),
        Close(char),
    }

    let tree = two_levels();

    let traversal = tree
        .root()
        .traverse()
        .collect(&tree)
        .into_iter()
        .filter_map(|edge| match edge {
            Edge::Open(nref) => nref.map_value(&tree, |&c| c).map(|c| Value::Open(c)),
            Edge::Close(nref) => nref.map_value(&tree, |&c| c).map(|c| Value::Close(c)),
        })
        .collect::<Vec<_>>();

    assert_eq!(
        &[
            Value::Open('a'),
            Value::Open('b'),
            Value::Open('d'),
            Value::Close('d'),
            Value::Open('e'),
            Value::Close('e'),
            Value::Close('b'),
            Value::Open('c'),
            Value::Close('c'),
            Value::Close('a'),
        ],
        &traversal[..]
    );
}

#[test]
fn iter_descendants() {
    let tree = two_levels();

    let descendants = values(&tree, tree.root().descendants().collect(&tree));

    assert_eq!(&['a', 'b', 'd', 'e', 'c',], &descendants[..]);
}

#[test]
fn traverse_of_a_subtree_stays_inside_it() {
    let tree = two_levels();
    let b = tree.root().first_child(&tree).unwrap();

    assert_eq!(
        vec!['b', 'd', 'e'],
        values(&tree, b.descendants().collect(&tree))
    );
    assert_eq!(6, b.traverse().collect(&tree).len());
}

#[test]
fn walkers_step_one_node_at_a_time() {
    let tree = leaves('a', &['b', 'c', 'd']);
    let root = tree.root();
    let b = root.first_child(&tree).unwrap();
    let d = root.last_child(&tree).unwrap();

    let mut children = root.children(&tree);
    assert_eq!(Some(b), children.next(&tree));
    assert_eq!(Some(d), children.next_back(&tree));
    let c = children.next(&tree).unwrap();
    assert_eq!(Some('c'), c.map_value(&tree, |&v| v));
    assert_eq!(None, children.next(&tree));
    assert_eq!(None, children.next_back(&tree));

    let mut up = d.ancestors(&tree);
    assert_eq!(Some(root), up.next(&tree));
    assert_eq!(None, up.next(&tree));

    let mut walk = b.traverse();
    assert_eq!(Some(Edge::Open(b)), walk.next(&tree));
    assert_eq!(Some(Edge::Close(b)), walk.next(&tree));
    assert_eq!(None, walk.next(&tree));
}

#[test]
fn descendants_step_from_node_to_node() {
    let tree = two_levels();
    let mut walk = tree.root().descendants();
    let mut seen = Vec::new();
    while let Some(node) = walk.next(&tree) {
        seen.push(node.map_value(&tree, |&c| c).unwrap());
    }
    assert_eq!(vec!['a', 'b', 'd', 'e', 'c'], seen);
}
