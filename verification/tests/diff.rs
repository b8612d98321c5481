use axo::diff::{diff_trees, DiffNode, Patch, PropMap};

fn props(pairs: &[(&str, &str)]) -> PropMap {
    let mut m = PropMap::new();
    for (k, v) in pairs {
        m.insert(k.to_string(), v.to_string());
    }
    m
}

fn node(id: u64, pairs: &[(&str, &str)]) -> DiffNode {
    DiffNode::new(id, props(pairs))
}

#[test]
fn identical_levels_need_no_patch() {
    let old = vec![node(1, &[("text", "a")]), node(2, &[])];
    let new = vec![node(1, &[("text", "a")]), node(2, &[])];
    assert!(diff_trees(&old, &new).is_empty());
}

#[test]
fn new_ids_are_added_and_missing_ids_removed() {
    let old = vec![node(1, &[]), node(2, &[])];
    let new = vec![node(2, &[]), node(3, &[("k", "v")])];
    let patches = diff_trees(&old, &new);
    assert_eq!(patches.len(), 2);
    match &patches[0] {
        Patch::AddNode { parent_id, node } => {
            assert_eq!(*parent_id, 0);
            assert_eq!(node.id, 3);
            assert_eq!(node.props.get("k").map(|s| s.as_str()), Some("v"));
        }
        other => panic!("unexpected {:?}", other),
    }
    assert!(matches!(patches[1], Patch::RemoveNode { id: 1 }));
}

#[test]
fn changed_props_are_updated_with_the_new_values() {
    let old = vec![node(7, &[("a", "1"), ("b", "2")])];
    let new = vec![node(7, &[("b", "2"), ("a", "9")])];
    let patches = diff_trees(&old, &new);
    assert_eq!(patches.len(), 1);
    match &patches[0] {
        Patch::UpdateProps { id, props } => {
            assert_eq!(*id, 7);
            assert_eq!(props.get("a").map(|s| s.as_str()), Some("9"));
            assert_eq!(props.get("b").map(|s| s.as_str()), Some("2"));
        }
        other => panic!("unexpected {:?}", other),
    }
}

#[test]
fn prop_order_does_not_matter() {
    let old = vec![node(7, &[("a", "1"), ("b", "2")])];
    let new = vec![node(7, &[("b", "2"), ("a", "1")])];
    assert!(diff_trees(&old, &new).is_empty());
}

#[test]
fn first_old_node_with_an_id_is_compared() {
    let old = vec![node(4, &[("x", "1")]), node(4, &[("x", "2")])];
    let new = vec![node(4, &[("x", "2")])];
    let patches = diff_trees(&old, &new);
    assert_eq!(patches.len(), 1);
    assert!(matches!(patches[0], Patch::UpdateProps { id: 4, .. }));
}

#[test]
fn prop_map_insert_replaces() {
    let mut m = props(&[("k", "1")]);
    m.insert("k".to_string(), "2".to_string());
    assert_eq!(m.get("k").map(|s| s.as_str()), Some("2"));
    assert_eq!(m.get("z"), None);
    assert!(m.same_as(&props(&[("k", "2")])));
    assert!(!m.same_as(&props(&[("k", "2"), ("z", "")])));
    assert!(m.duplicate().same_as(&m));
}
