use sws::tree::{NodeRef, Tree};

fn value(tree: &Tree<char>, node: NodeRef) -> char {
    node.map_value(tree, |&c| c).unwrap()
}

fn leaves(root: char, children: &[char]) -> Tree<char> {
    let mut tree = Tree::new(root);
    let node = tree.root();
    for c in children {
        node.append(&mut tree, *c).unwrap();
    }
    tree
}

#[test]
fn node_value() {
    let tree = Tree::new('a');
    assert_eq!('a', tree.root().map_value(&tree, |&c| c).unwrap());
}

#[test]
fn node_parent() {
    let tree = leaves('a', &['b']);
    let b = tree.root().first_child(&tree).unwrap();
    assert_eq!(tree.root(), b.parent(&tree).unwrap());
}

#[test]
fn node_prev_sibling() {
    let tree = leaves('a', &['b', 'c']);
    let c = tree.root().last_child(&tree).unwrap();
    assert_eq!(tree.root().first_child(&tree), c.prev_sibling(&tree));
}

#[test]
fn node_next_sibling() {
    let tree = leaves('a', &['b', 'c']);
    let b = tree.root().first_child(&tree).unwrap();
    assert_eq!(tree.root().last_child(&tree), b.next_sibling(&tree));
}

#[test]
fn node_first_child() {
    let tree = leaves('a', &['b', 'c']);
    assert_eq!(
        'b',
        tree.root()
            .first_child(&tree)
            .unwrap()
            .map_value(&tree, |&c| c)
            .unwrap()
    );
}

#[test]
fn node_last_child() {
    let tree = leaves('a', &['b', 'c']);
    assert_eq!(
        'c',
        tree.root()
            .last_child(&tree)
            .unwrap()
            .map_value(&tree, |&c| c)
            .unwrap()
    );
}

#[test]
fn node_has_siblings() {
    let tree = leaves('a', &['b', 'c']);
    assert_eq!(false, tree.root().has_siblings(&tree));
    assert_eq!(
        true,
        tree.root().first_child(&tree).unwrap().has_siblings(&tree)
    );
}

#[test]
fn node_has_children() {
    let tree = leaves('a', &['b', 'c']);
    assert_eq!(true, tree.root().has_children(&tree));
    assert_eq!(
        false,
        tree.root().first_child(&tree).unwrap().has_children(&tree)
    );
}

#[test]
fn append_1() {
    let mut tree = Tree::new('a');
    tree.root().append(&mut tree, 'b');

    let root = tree.root();
    let child = root.first_child(&tree).unwrap();

    assert_eq!('b', value(&tree, child));
    assert_eq!(Some(child.clone()), root.last_child(&tree));
    assert_eq!(Some(root.clone()), child.parent(&tree));
    assert_eq!(None, child.next_sibling(&tree));
    assert_eq!(None, child.next_sibling(&tree));
}

#[test]
fn append_2() {
    let mut tree = Tree::new('a');
    tree.root().append(&mut tree, 'b');
    tree.root().append(&mut tree, 'c');

    let root = tree.root();
    let b = root.first_child(&tree).unwrap();
    let c = root.last_child(&tree).unwrap();

    assert_eq!('b', value(&tree, b));
    assert_eq!('c', value(&tree, c));
    assert_eq!(Some(root.clone()), b.parent(&tree));
    assert_eq!(Some(root.clone()), c.parent(&tree));
    assert_eq!(None, b.prev_sibling(&tree));
    assert_eq!(Some(c.clone()), b.next_sibling(&tree));
    assert_eq!(Some(b.clone()), c.prev_sibling(&tree));
    assert_eq!(None, c.next_sibling(&tree));
}

#[test]
fn append_3() {
    let mut tree = Tree::new('a');
    tree.root().append(&mut tree, 'b');
    tree.root().append(&mut tree, 'c');
    tree.root().append(&mut tree, 'd');

    let root = tree.root();
    let b = root.first_child(&tree).unwrap();
    let c = b.next_sibling(&tree).unwrap();
    let d = root.last_child(&tree).unwrap();

    assert_eq!('b', value(&tree, b));
    assert_eq!('c', value(&tree, c));
    assert_eq!('d', value(&tree, d));
    assert_eq!(Some(root.clone()), b.parent(&tree));
    assert_eq!(Some(root.clone()), c.parent(&tree));
    assert_eq!(Some(root.clone()), d.parent(&tree));
    assert_eq!(None, b.prev_sibling(&tree));
    assert_eq!(Some(c.clone()), b.next_sibling(&tree));
    assert_eq!(Some(b.clone()), c.prev_sibling(&tree));
    assert_eq!(Some(d.clone()), c.next_sibling(&tree));
    assert_eq!(Some(c.clone()), d.prev_sibling(&tree));
    assert_eq!(None, d.next_sibling(&tree));
}

#[test]
fn prepend_1() {
    let mut tree = Tree::new('a');
    tree.root().prepend(&mut tree, 'b');

    let root = tree.root();
    let child = root.first_child(&tree).unwrap();

    assert_eq!('b', value(&tree, child));
    assert_eq!(Some(child.clone()), root.last_child(&tree));
    assert_eq!(Some(root.clone()), child.parent(&tree));
    assert_eq!(None, child.next_sibling(&tree));
    assert_eq!(None, child.next_sibling(&tree));
}

#[test]
fn prepend_2() {
    let mut tree = Tree::new('a');
    tree.root().prepend(&mut tree, 'c');
    tree.root().prepend(&mut tree, 'b');

    let root = tree.root();
    let b = root.first_child(&tree).unwrap();
    let c = root.last_child(&tree).unwrap();

    assert_eq!('b', value(&tree, b));
    assert_eq!('c', value(&tree, c));
    assert_eq!(Some(root.clone()), b.parent(&tree));
    assert_eq!(Some(root.clone()), c.parent(&tree));
    assert_eq!(None, b.prev_sibling(&tree));
    assert_eq!(Some(c.clone()), b.next_sibling(&tree));
    assert_eq!(Some(b.clone()), c.prev_sibling(&tree));
    assert_eq!(None, c.next_sibling(&tree));
}

#[test]
fn prepend_3() {
    let mut tree = Tree::new('a');
    tree.root().prepend(&mut tree, 'd');
    tree.root().prepend(&mut tree, 'c');
    tree.root().prepend(&mut tree, 'b');

    let root = tree.root();
    let b = root.first_child(&tree).unwrap();
    let c = b.next_sibling(&tree).unwrap();
    let d = root.last_child(&tree).unwrap();

    assert_eq!('b', value(&tree, b));
    assert_eq!('c', value(&tree, c));
    assert_eq!('d', value(&tree, d));
    assert_eq!(Some(root.clone()), b.parent(&tree));
    assert_eq!(Some(root.clone()), c.parent(&tree));
    assert_eq!(Some(root.clone()), d.parent(&tree));
    assert_eq!(None, b.prev_sibling(&tree));
    assert_eq!(Some(c.clone()), b.next_sibling(&tree));
    assert_eq!(Some(b.clone()), c.prev_sibling(&tree));
    assert_eq!(Some(d.clone()), c.next_sibling(&tree));
    assert_eq!(Some(c.clone()), d.prev_sibling(&tree));
    assert_eq!(None, d.next_sibling(&tree));
}

#[test]
fn insert_before_first() {
    let mut tree = leaves('a', &['c']);
    tree.root()
        .first_child(&tree)
        .unwrap()
        .insert_before(&mut tree, 'b');

    let root = tree.root();
    let b = root.first_child(&tree).unwrap();
    let c = root.last_child(&tree).unwrap();

    assert_eq!('b', value(&tree, b));
    assert_eq!(Some(root), b.parent(&tree));
    assert_eq!(None, b.prev_sibling(&tree));
    assert_eq!(Some(c.clone()), b.next_sibling(&tree));
    assert_eq!(Some(b.clone()), c.prev_sibling(&tree));
    assert_eq!(None, c.next_sibling(&tree));
}

#[test]
fn insert_before() {
    let mut tree = leaves('a', &['b', 'd']);
    tree.root()
        .last_child(&tree)
        .unwrap()
        .insert_before(&mut tree, 'c');

    let root = tree.root();
    let b = root.first_child(&tree).unwrap();
    let c = b.next_sibling(&tree).unwrap();
    let d = root.last_child(&tree).unwrap();

    assert_eq!('c', value(&tree, c));
    assert_eq!(Some(root.clone()), b.parent(&tree));
    assert_eq!(Some(root.clone()), c.parent(&tree));
    assert_eq!(Some(root.clone()), d.parent(&tree));
    assert_eq!(None, b.prev_sibling(&tree));
    assert_eq!(Some(c.clone()), b.next_sibling(&tree));
    assert_eq!(Some(b.clone()), c.prev_sibling(&tree));
    assert_eq!(Some(d.clone()), c.next_sibling(&tree));
    assert_eq!(Some(c.clone()), d.prev_sibling(&tree));
    assert_eq!(None, d.next_sibling(&tree));
}

#[test]
fn insert_after_first() {
    let mut tree = leaves('a', &['b']);
    tree.root()
        .first_child(&tree)
        .unwrap()
        .insert_after(&mut tree, 'c');

    let root = tree.root();
    let b = root.first_child(&tree).unwrap();
    let c = root.last_child(&tree).unwrap();

    assert_eq!('c', value(&tree, c));
    assert_eq!(Some(root), c.parent(&tree));
    assert_eq!(None, b.prev_sibling(&tree));
    assert_eq!(Some(c.clone()), b.next_sibling(&tree));
    assert_eq!(Some(b.clone()), c.prev_sibling(&tree));
    assert_eq!(None, c.next_sibling(&tree));
}

#[test]
fn insert_after() {
    let mut tree = leaves('a', &['b', 'd']);
    tree.root()
        .first_child(&tree)
        .unwrap()
        .insert_after(&mut tree, 'c');

    let root = tree.root();
    let b = root.first_child(&tree).unwrap();
    let c = b.next_sibling(&tree).unwrap();
    let d = root.last_child(&tree).unwrap();

    assert_eq!('c', value(&tree, c));
    assert_eq!(Some(root.clone()), b.parent(&tree));
    assert_eq!(Some(root.clone()), c.parent(&tree));
    assert_eq!(Some(root.clone()), d.parent(&tree));
    assert_eq!(None, b.prev_sibling(&tree));
    assert_eq!(Some(c.clone()), b.next_sibling(&tree));
    assert_eq!(Some(b.clone()), c.prev_sibling(&tree));
    assert_eq!(Some(d.clone()), c.next_sibling(&tree));
    assert_eq!(Some(c.clone()), d.prev_sibling(&tree));
    assert_eq!(None, d.next_sibling(&tree));
}

#[test]
fn detach() {
    let mut tree = leaves('a', &['b', 'd']);
    let root = tree.root();
    let b = root.first_child(&tree).unwrap();
    let c = b.insert_after(&mut tree, 'c').unwrap();
    c.detach(&mut tree);

    assert!(c.parent(&tree).is_none());
    assert!(c.prev_sibling(&tree).is_none());
    assert!(c.next_sibling(&tree).is_none());
}

#[test]
fn reparent_from_id_append() {
    let mut tree = Tree::new('a');
    let root = tree.root();
    let b = root.append(&mut tree, 'b').unwrap();
    b.append(&mut tree, 'c').unwrap();
    b.append(&mut tree, 'd').unwrap();
    let e = root.append(&mut tree, 'e').unwrap();
    e.append(&mut tree, 'f').unwrap();
    e.append(&mut tree, 'g').unwrap();

    let e_id = tree.root().last_child(&tree).unwrap().id();
    tree.root()
        .first_child(&tree)
        .unwrap()
        .reparent_from_id_append(&mut tree, e_id);

    let b = tree.root().first_child(&tree).unwrap();
    let e = tree.root().last_child(&tree).unwrap();
    let d = b
        .first_child(&tree)
        .unwrap()
        .next_sibling(&tree)
        .unwrap();
    let g = b.last_child(&tree).unwrap();
    let f = g.prev_sibling(&tree).unwrap();

    assert_eq!(false, e.has_children(&tree));
    assert_eq!('f', value(&tree, f));
    assert_eq!('g', value(&tree, g));
    assert_eq!(Some(&f), d.next_sibling(&tree).as_ref());
    assert_eq!(Some(&d), f.prev_sibling(&tree).as_ref());
}

#[test]
fn detach_moves_the_ends_of_the_parent() {
    let mut tree = leaves('a', &['b', 'c', 'd']);
    let root = tree.root();
    let b = root.first_child(&tree).unwrap();
    let c = b.next_sibling(&tree).unwrap();
    let d = root.last_child(&tree).unwrap();

    b.detach(&mut tree);
    assert_eq!(Some(c), root.first_child(&tree));
    assert_eq!(None, c.prev_sibling(&tree));
    d.detach(&mut tree);
    assert_eq!(Some(c), root.last_child(&tree));
    assert_eq!(None, c.next_sibling(&tree));
    c.detach(&mut tree);
    assert_eq!(false, root.has_children(&tree));
    assert_eq!(4, tree.len());
}

#[test]
fn detach_of_the_root_changes_nothing() {
    let mut tree = leaves('a', &['b']);
    let root = tree.root();
    root.detach(&mut tree);
    assert_eq!(true, root.has_children(&tree));
    assert_eq!(Some(root), root.first_child(&tree).unwrap().parent(&tree));
}

#[test]
fn insert_beside_the_root_is_refused() {
    let mut tree = Tree::new('a');
    let root = tree.root();
    assert_eq!(None, root.insert_before(&mut tree, 'x'));
    assert_eq!(None, root.insert_after(&mut tree, 'y'));
    assert_eq!(false, root.has_siblings(&tree));
    assert_eq!(vec![&'a', &'x', &'y'], tree.values());
}

#[test]
fn update_value_replaces_the_value() {
    let mut tree = leaves('a', &['b']);
    let b = tree.root().first_child(&tree).unwrap();
    assert!(b.update_value(&mut tree, 'B'));
    assert_eq!('B', value(&tree, b));
    assert_eq!(Some(tree.root()), b.parent(&tree));
    let gone = NodeRef { id: sws::tree::NodeId::null() };
    assert!(!gone.update_value(&mut tree, 'z'));
    assert_eq!(None, tree.get(gone.id()));
}

#[test]
fn node_new_has_no_neighbours() {
    let mut node = sws::tree::Node::new(7u32);
    assert!(node.parent.is_null());
    assert!(node.prev_sibling.is_null());
    assert!(node.next_sibling.is_null());
    assert!(node.children.0.is_null() && node.children.1.is_null());
    assert_eq!(7, *node.value());
    *node.value_mut() = 8;
    assert_eq!(8, *node.value());
}
