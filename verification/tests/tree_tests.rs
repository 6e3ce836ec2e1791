//! Type-tree behaviour: reflexive and transitive subtyping, class filtering,
//! property lookup and removal, and the descendant sweep.

use opcua_runtime::node_id::{NodeClass, NodeId, QualifiedName};
use opcua_runtime::type_tree::{DefaultTypeTree, TypeTreeNode};

fn n(id: u32) -> NodeId {
    NodeId::new_numeric(1, id)
}

fn qn(name: &str) -> QualifiedName {
    QualifiedName::new(1, name.to_string())
}

/// BaseDataType (ns 0, 24) with a small chain under it:
/// 24 <- 100 <- 101 <- 102.
fn chain_tree() -> DefaultTypeTree {
    let mut t = DefaultTypeTree::new();
    let base = NodeId::new_numeric(0, 24);
    t.add_type_node(&n(100), &base, NodeClass::DataType);
    t.add_type_node(&n(101), &n(100), NodeClass::DataType);
    t.add_type_node(&n(102), &n(101), NodeClass::DataType);
    t
}

#[test]
fn subtype_is_reflexive() {
    let t = chain_tree();
    assert!(t.is_subtype_of(&n(101), &n(101)));
    assert!(t.is_subtype_of(&NodeId::new_numeric(0, 24), &NodeId::new_numeric(0, 24)));
    // Reflexivity holds even of nodes the tree does not know.
    assert!(t.is_subtype_of(&n(9999), &n(9999)));
}

#[test]
fn subtype_follows_chains_transitively() {
    let t = chain_tree();
    let base = NodeId::new_numeric(0, 24);
    assert!(t.is_subtype_of(&n(101), &n(100)));
    assert!(t.is_subtype_of(&n(102), &n(101)));
    assert!(t.is_subtype_of(&n(102), &n(100)));
    assert!(t.is_subtype_of(&n(102), &base));
    assert!(!t.is_subtype_of(&n(100), &n(102)));
    assert!(!t.is_subtype_of(&base, &n(100)));
}

#[test]
fn subtype_stops_at_non_type_classes() {
    let mut t = chain_tree();
    // A plain object hanging under a type takes no part in the lattice.
    t.add_type_node(&n(200), &n(100), NodeClass::Object);
    assert!(!t.is_subtype_of(&n(200), &n(100)));
    assert!(t.is_subtype_of(&n(200), &n(200)));
}

#[test]
fn subtype_of_absent_node_is_false() {
    let t = chain_tree();
    assert!(!t.is_subtype_of(&n(9999), &n(100)));
}

#[test]
fn type_properties_are_found_by_browse_path() {
    let mut t = chain_tree();
    let path = vec![qn("EngineeringUnits")];
    t.add_type_property(&n(300), &n(100), &path, NodeClass::Variable);
    let found = t
        .find_type_prop_by_browse_path(&n(100), &path)
        .expect("property is registered");
    assert_eq!(found.node_id, n(300));
    assert_eq!(found.node_class, NodeClass::Variable);
    assert!(t
        .find_type_prop_by_browse_path(&n(101), &path)
        .is_none());
    let other = vec![qn("Range")];
    assert!(t.find_type_prop_by_browse_path(&n(100), &other).is_none());
    match t.get_node(&n(300)) {
        Some(TypeTreeNode::Property(p)) => assert_eq!(p.type_id, n(100)),
        other => panic!("expected a property, got {:?}", other),
    }
    match t.get_node(&n(100)) {
        Some(TypeTreeNode::Type(c)) => assert_eq!(c, NodeClass::DataType),
        other => panic!("expected a type, got {:?}", other),
    }
}

#[test]
fn remove_drops_node_edge_and_properties() {
    let mut t = chain_tree();
    let path = vec![qn("Prop")];
    t.add_type_property(&n(300), &n(101), &path, NodeClass::Variable);
    assert!(t.remove(&n(101)));
    assert!(t.get(&n(101)).is_none());
    assert!(t.get_supertype(&n(101)).is_none());
    assert!(t.find_type_prop_by_browse_path(&n(101), &path).is_none());
    assert!(t.get_node(&n(300)).is_none());
    // The chain through the removed node is broken.
    assert!(!t.is_subtype_of(&n(102), &n(100)));
    // Removing a property alone.
    t.add_type_property(&n(301), &n(100), &path, NodeClass::Variable);
    assert!(t.remove(&n(301)));
    assert!(t.get_node(&n(301)).is_none());
    // Removing what is not there reports false.
    assert!(!t.remove(&n(9999)));
}

#[test]
fn get_all_children_sweeps_the_subtree() {
    let t = chain_tree();
    let children = t.get_all_children(&n(100));
    assert_eq!(children[0], n(100));
    assert!(children.contains(&n(101)));
    assert!(children.contains(&n(102)));
    assert_eq!(children.len(), 3);
    let leaf = t.get_all_children(&n(102));
    assert_eq!(leaf, vec![n(102)]);
}

#[test]
fn namespaces_start_with_the_base_uri() {
    let mut t = DefaultTypeTree::new();
    assert_eq!(t.namespaces().len(), 1);
    let idx = t.namespaces_mut().add_namespace("urn:example".to_string());
    assert_eq!(idx, 1);
    assert_eq!(t.namespaces().len(), 2);
}

#[test]
fn get_supertype_walks_one_step() {
    let t = chain_tree();
    assert_eq!(t.get_supertype(&n(102)), Some(n(101)));
    assert_eq!(t.get_supertype(&NodeId::new_numeric(0, 24)), None);
    assert_eq!(t.get(&n(100)), Some(NodeClass::DataType));
}

#[test]
fn re_registration_replaces_the_property() {
    let mut t = chain_tree();
    let path = vec![qn("EngineeringUnits")];
    t.add_type_property(&n(300), &n(100), &path, NodeClass::Variable);
    // Registering the same (type, path) again replaces the earlier entry.
    t.add_type_property(&n(301), &n(100), &path, NodeClass::Object);
    let found = t
        .find_type_prop_by_browse_path(&n(100), &path)
        .expect("property is registered");
    assert_eq!(found.node_id, n(301));
    assert_eq!(found.node_class, NodeClass::Object);
    // The stale registration is gone from the inverse index too.
    assert!(t.get_node(&n(300)).is_none());
    // Removing the current registration leaves nothing to find.
    assert!(t.remove(&n(301)));
    assert!(t.find_type_prop_by_browse_path(&n(100), &path).is_none());
}
