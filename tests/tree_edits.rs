use satisfactory_accounting_app::node::{Building, Group, Node};
use satisfactory_accounting_app::node_display::{
    child_path, delete_index, own_index_of, EditError, NodeDisplay, NodeMsg,
};

fn group(name: &str, children: Vec<Node>) -> Node {
    Node::Group(Group { name: name.to_owned(), children })
}

fn as_group(node: &Node) -> &Group {
    match node {
        Node::Group(g) => g,
        Node::Building(_) => panic!("expected a group"),
    }
}

fn name_of(node: &Node) -> &str {
    &as_group(node).name
}

fn three() -> Group {
    Group {
        name: "G".to_owned(),
        children: vec![group("a", vec![]), group("b", vec![]), group("c", vec![])],
    }
}

#[test]
fn replace_child_sets_only_that_slot() {
    let g = three().with_child_replaced(1, Building::empty_node());
    assert_eq!(g.name, "G");
    assert_eq!(g.children.len(), 3);
    assert_eq!(name_of(&g.children[0]), "a");
    assert!(!g.children[1].is_container());
    assert_eq!(name_of(&g.children[2]), "c");
}

#[test]
fn remove_child_shifts_later_children() {
    let g = three().with_child_removed(0);
    assert_eq!(g.children.len(), 2);
    assert_eq!(name_of(&g.children[0]), "b");
    assert_eq!(name_of(&g.children[1]), "c");
}

#[test]
fn remove_last_child() {
    let g = three().with_child_removed(2);
    assert_eq!(g.children.len(), 2);
    assert_eq!(name_of(&g.children[1]), "b");
}

#[test]
fn append_child_goes_last() {
    let g = three().with_child_appended(group("d", vec![]));
    assert_eq!(g.children.len(), 4);
    assert_eq!(name_of(&g.children[3]), "d");
    assert_eq!(name_of(&g.children[0]), "a");
    assert_eq!(name_of(&g.children[2]), "c");
}

#[test]
fn append_to_empty_group() {
    let g = Group::empty().with_child_appended(Building::empty_node());
    assert_eq!(g.children.len(), 1);
    assert!(!g.children[0].is_container());
}

#[test]
fn rename_trims_whitespace() {
    let g = three().with_renamed("  foo  ");
    assert_eq!(g.name, "foo");
    assert_eq!(g.children.len(), 3);
}

#[test]
fn rename_to_empty_is_kept() {
    assert_eq!(three().with_renamed("").name, "");
    assert_eq!(three().with_renamed("   ").name, "");
}

#[test]
fn rename_keeps_inner_spaces() {
    assert_eq!(three().with_renamed("\tIron  Plates\n").name, "Iron  Plates");
}

#[test]
fn empty_seeds() {
    let g = Group::empty_node();
    assert!(g.is_container());
    assert_eq!(name_of(&g), "");
    assert!(as_group(&g).children.is_empty());
    assert!(!Building::empty_node().is_container());
}

#[test]
fn update_emits_replacement_at_own_index() {
    let node = group("A", vec![]);
    let r = NodeDisplay::update(node, &vec![0, 2], NodeMsg::AddChild { child: Building::empty_node() });
    let (idx, n) = r.unwrap();
    assert_eq!(idx, 2);
    assert_eq!(as_group(&n).children.len(), 1);
    assert_eq!(name_of(&n), "A");
}

#[test]
fn update_at_root_uses_index_zero() {
    let r = NodeDisplay::update(group("R", vec![]), &vec![], NodeMsg::Rename { name: " X ".to_owned() });
    let (idx, n) = r.unwrap();
    assert_eq!(idx, 0);
    assert_eq!(name_of(&n), "X");
}

#[test]
fn update_rejects_out_of_range_index() {
    let node = Node::Group(three());
    let r = NodeDisplay::update(node, &vec![], NodeMsg::DeleteChild { idx: 3 });
    assert_eq!(r.unwrap_err(), EditError::IndexOutOfRange);
    let r = NodeDisplay::update(
        Node::Group(three()),
        &vec![],
        NodeMsg::ReplaceChild { idx: 7, replacement: Building::empty_node() },
    );
    assert_eq!(r.unwrap_err(), EditError::IndexOutOfRange);
}

#[test]
fn update_rejects_building() {
    let msgs = vec![
        NodeMsg::AddChild { child: Building::empty_node() },
        NodeMsg::Rename { name: "x".to_owned() },
        NodeMsg::DeleteChild { idx: 0 },
        NodeMsg::ReplaceChild { idx: 0, replacement: Building::empty_node() },
    ];
    for msg in msgs {
        let r = NodeDisplay::update(Building::empty_node(), &vec![1], msg);
        assert_eq!(r.unwrap_err(), EditError::NotAGroup);
    }
}

#[test]
fn end_to_end_edits_through_paths() {
    let root = group("Root", vec![group("A", vec![])]);
    let root = NodeDisplay::apply_at(root, &vec![0], NodeMsg::AddChild { child: Building::empty_node() })
        .unwrap();
    assert_eq!(as_group(&as_group(&root).children[0]).children.len(), 1);
    let root = NodeDisplay::apply_at(root, &vec![0], NodeMsg::DeleteChild { idx: 0 }).unwrap();
    assert_eq!(as_group(&as_group(&root).children[0]).children.len(), 0);
    let root = NodeDisplay::apply_at(root, &vec![], NodeMsg::Rename { name: "Factory".to_owned() })
        .unwrap();
    assert_eq!(name_of(&root), "Factory");
    assert_eq!(name_of(&as_group(&root).children[0]), "A");
}

#[test]
fn apply_at_deep_path_keeps_siblings() {
    let root = group("R", vec![group("x", vec![]), group("y", vec![group("z", vec![])])]);
    let root = NodeDisplay::apply_at(root, &vec![1, 0], NodeMsg::Rename { name: "w".to_owned() }).unwrap();
    let g = as_group(&root);
    assert_eq!(name_of(&g.children[0]), "x");
    assert_eq!(name_of(&g.children[1]), "y");
    assert_eq!(name_of(&as_group(&g.children[1]).children[0]), "w");
}

#[test]
fn apply_at_reports_bad_paths() {
    let root = group("R", vec![Building::empty_node()]);
    let r = NodeDisplay::apply_at(root, &vec![4], NodeMsg::DeleteChild { idx: 0 });
    assert_eq!(r.unwrap_err(), EditError::IndexOutOfRange);
    let root = group("R", vec![Building::empty_node()]);
    let r = NodeDisplay::apply_at(root, &vec![0, 0], NodeMsg::DeleteChild { idx: 0 });
    assert_eq!(r.unwrap_err(), EditError::NotAGroup);
    let root = group("R", vec![Building::empty_node()]);
    let r = NodeDisplay::apply_at(root, &vec![0], NodeMsg::Rename { name: "b".to_owned() });
    assert_eq!(r.unwrap_err(), EditError::NotAGroup);
}

#[test]
fn paths_and_indices() {
    assert_eq!(child_path(&vec![1, 2], 5), vec![1, 2, 5]);
    assert_eq!(child_path(&vec![], 0), vec![0]);
    assert_eq!(own_index_of(&vec![3, 4]), 4);
    assert_eq!(own_index_of(&vec![]), 0);
    assert_eq!(delete_index(&vec![]), None);
    assert_eq!(delete_index(&vec![0, 6]), Some(6));
}

#[test]
fn duplicate_is_the_same_tree() {
    let root = group("R", vec![group("x", vec![Building::empty_node()]), Building::empty_node()]);
    let copy = root.duplicate();
    assert!(root.same_as(&copy));
    let other = group("R", vec![group("x", vec![]), Building::empty_node()]);
    assert!(!root.same_as(&other));
    assert!(!root.same_as(&Building::empty_node()));
    assert!(Building::empty_node().same_as(&Building::empty_node()));
}
