use sws::tree::Tree;

#[test]
fn tree_new() {
    let tree = Tree::new('a');
    let root = tree.root();

    assert_eq!(Some('a'), root.map_value(&tree, |&v| v));
    assert_eq!(None, root.parent(&tree));
    assert_eq!(None, root.prev_sibling(&tree));
    assert_eq!(None, root.next_sibling(&tree));
    assert_eq!(None, root.first_child(&tree));
    assert_eq!(None, root.last_child(&tree));
}

#[test]
fn tree_root() {
    let tree = Tree::new('a');

    assert_eq!(Some('a'), tree.root().map_value(&tree, |&v| v));
}

#[test]
fn tree_get() {
    let tree = Tree::new('a');
    let id = tree.root().id();

    assert_eq!(Some(tree.root()), tree.get(id));
    assert_eq!(
        Some('a'),
        tree.get(id).and_then(|node| node.map_value(&tree, |&v| v))
    );
}

#[test]
fn tree_eq() {
    let one = Tree::new('a');
    let two = Tree::new('a');

    assert_eq!(one, two);
}

#[test]
fn tree_neq() {
    let one = Tree::new('a');
    let two = Tree::new('b');

    assert_ne!(one, two);
}

#[test]
fn macro_single_child() {
    let mut built = Tree::new('a');
    {
        let node = built.root();
        node.append(&mut built, 'b').unwrap();
    }

    let mut manual_tree = Tree::new('a');
    manual_tree.root().append(&mut manual_tree, 'b');

    assert_eq!(manual_tree, built);
    assert_eq!(
        manual_tree.root().first_child(&manual_tree),
        built.root().first_child(&built)
    );
}

#[test]
fn macro_single_child_comma() {
    let mut built = Tree::new('a');
    {
        let node = built.root();
        node.append(&mut built, 'b').unwrap();
    }

    let mut manual_tree = Tree::new('a');
    manual_tree.root().append(&mut manual_tree, 'b');

    assert_eq!(manual_tree, built);
}

#[test]
fn macro_leaves() {
    let mut built = Tree::new('a');
    {
        let node = built.root();
        node.append(&mut built, 'b').unwrap();
        node.append(&mut built, 'c').unwrap();
        node.append(&mut built, 'd').unwrap();
    }

    let mut manual_tree = Tree::new('a');
    manual_tree.root().append(&mut manual_tree, 'b');
    manual_tree.root().append(&mut manual_tree, 'c');
    manual_tree.root().append(&mut manual_tree, 'd');

    assert_eq!(manual_tree, built);
}

#[test]
fn macro_nested_single_child() {
    let mut built = Tree::new('a');
    {
        let node = built.root();
        let b = node.append(&mut built, 'b').unwrap();
        b.append(&mut built, 'c').unwrap();
    }

    let mut manual_tree = Tree::new('a');
    manual_tree
        .root()
        .append(&mut manual_tree, 'b')
        .unwrap()
        .append(&mut manual_tree, 'c');

    assert_eq!(manual_tree, built);
}

#[test]
fn macro_nested_leaves() {
    let mut built = Tree::new('a');
    {
        let node = built.root();
        let b = node.append(&mut built, 'b').unwrap();
        b.append(&mut built, 'c').unwrap();
        b.append(&mut built, 'd').unwrap();
        b.append(&mut built, 'e').unwrap();
    }

    let mut manual_tree = Tree::new('a');
    {
        let root = manual_tree.root();
        let node = root.append(&mut manual_tree, 'b').unwrap();
        node.append(&mut manual_tree, 'c');
        node.append(&mut manual_tree, 'd');
        node.append(&mut manual_tree, 'e');
    }

    assert_eq!(manual_tree, built);
}

#[test]
fn macro_nested_nested() {
    let mut built = Tree::new('a');
    {
        let node = built.root();
        let b = node.append(&mut built, 'b').unwrap();
        let c = b.append(&mut built, 'c').unwrap();
        c.append(&mut built, 'd').unwrap();
    }

    let mut manual_tree = Tree::new('a');
    manual_tree
        .root()
        .append(&mut manual_tree, 'b')
        .unwrap()
        .append(&mut manual_tree, 'c')
        .unwrap()
        .append(&mut manual_tree, 'd');

    assert_eq!(manual_tree, built);
}

#[test]
fn macro_mixed() {
    let mut built = Tree::new('a');
    {
        let node = built.root();
        node.append(&mut built, 'b').unwrap();
        {
            let d = node.append(&mut built, 'd').unwrap();
            d.append(&mut built, 'e').unwrap();
            d.append(&mut built, 'f').unwrap();
        }
        {
            let g = node.append(&mut built, 'g').unwrap();
            let h = g.append(&mut built, 'h').unwrap();
            h.append(&mut built, 'i').unwrap();
        }
        node.append(&mut built, 'j').unwrap();
    }

    let mut manual_tree = Tree::new('a');
    {
        let node = manual_tree.root();
        node.append(&mut manual_tree, 'b');
        {
            let d = node.append(&mut manual_tree, 'd').unwrap();
            d.append(&mut manual_tree, 'e');
            d.append(&mut manual_tree, 'f');
        }
        node.append(&mut manual_tree, 'g')
            .unwrap()
            .append(&mut manual_tree, 'h')
            .unwrap()
            .append(&mut manual_tree, 'i');
        node.append(&mut manual_tree, 'j');
    }

    assert_eq!(manual_tree, built);
    assert_eq!(
        vec![&'a', &'b', &'d', &'e', &'f', &'g', &'h', &'i', &'j'],
        built.values()
    );
}

#[test]
fn with_capacity_makes_the_same_tree() {
    let tree = Tree::with_capacity('a', 16);
    assert_eq!(1, tree.len());
    assert_eq!(Some('a'), tree.root().map_value(&tree, |&v| v));
    assert_eq!(None, tree.root().first_child(&tree));
}

#[test]
fn orphan_is_a_node_without_neighbours() {
    let mut tree = Tree::new('a');
    let e = tree.orphan('e');
    assert_ne!(e, tree.root().id());
    assert!(!e.is_null());
    let node = tree.node(e).unwrap();
    assert!(node.parent.is_null() && node.prev_sibling.is_null() && node.next_sibling.is_null());
    assert_eq!('e', *node.value());
    assert_eq!(None, tree.root().first_child(&tree));
    assert_eq!(2, tree.len());
}

#[test]
fn null_id_names_no_node() {
    let tree = Tree::new('a');
    assert_eq!(None, tree.get(sws::tree::NodeId::null()));
    assert!(tree.node(sws::tree::NodeId::null()).is_none());
    assert_eq!(None, tree.get(sws::tree::NodeId { bits: 7 }));
}

#[test]
fn trees_are_compared_by_their_values_in_order() {
    let mut one = Tree::new('a');
    one.root().append(&mut one, 'b');
    one.root().append(&mut one, 'c');

    let mut two = Tree::new('a');
    let b = two.root().append(&mut two, 'b').unwrap();
    b.append(&mut two, 'c');
    assert_eq!(one, two);

    let mut three = Tree::new('a');
    three.root().append(&mut three, 'c');
    three.root().append(&mut three, 'b');
    assert_ne!(one, three);

    let short = Tree::new('a');
    assert_eq!(one, short);
    assert_ne!(three, Tree::new('x'));
}
