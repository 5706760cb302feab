use shared::node::{Node, NodeDiff, NodeId, Transform, TransformDiff};
use shared::node_data::{NodeData, NodeDataDiff, Sphere, SphereDiff};

type N = Node<f32, [f32; 3], [f32; 4]>;

fn identity() -> Transform<f32, [f32; 3], [f32; 4]> {
    Transform { translation: [0.0; 3], rotation: [0.0, 0.0, 0.0, 1.0], scale: 1.0 }
}

fn node_with(children: Vec<Option<NodeId>>) -> N {
    let mut n = Node::new(NodeId(1), NodeData::Sphere(Sphere { radius: 0.5 }), (1.0, 1.0, 1.0), identity());
    n.children = children;
    n
}

#[test]
fn new_node_has_no_children() {
    let n = node_with(vec![]);
    assert_eq!(n.id, NodeId(1));
    assert!(n.children.is_empty());
    assert_eq!(n.rgb, (1.0, 1.0, 1.0));
}

#[test]
fn add_child_pads_with_empty_slots() {
    let mut n = node_with(vec![Some(NodeId(2))]);
    let diff = n.add_child(3, NodeId(7));
    assert_eq!(n.children, vec![Some(NodeId(2)), None, None, Some(NodeId(7))]);
    assert_eq!(diff.children, Some(n.children.clone()));
    assert!(diff.rgb.is_none() && diff.transform.is_none() && diff.data.is_none());
}

#[test]
fn add_child_into_existing_slot() {
    let mut n = node_with(vec![Some(NodeId(2)), None, Some(NodeId(3))]);
    n.add_child(1, NodeId(9));
    assert_eq!(n.children, vec![Some(NodeId(2)), Some(NodeId(9)), Some(NodeId(3))]);
    n.add_child(0, NodeId(4));
    assert_eq!(n.children, vec![Some(NodeId(4)), Some(NodeId(9)), Some(NodeId(3))]);
}

#[test]
fn remove_child_empties_and_trims() {
    let mut n = node_with(vec![Some(NodeId(2)), Some(NodeId(5)), None, Some(NodeId(5))]);
    let diff = n.remove_child(NodeId(5));
    assert_eq!(n.children, vec![Some(NodeId(2))]);
    assert_eq!(diff.children, Some(vec![Some(NodeId(2))]));

    let mut m = node_with(vec![Some(NodeId(5)), Some(NodeId(2))]);
    m.remove_child(NodeId(5));
    assert_eq!(m.children, vec![None, Some(NodeId(2))]);
}

#[test]
fn remove_last_child_clears() {
    let mut n = node_with(vec![None, Some(NodeId(5)), None]);
    n.remove_child(NodeId(5));
    assert!(n.children.is_empty());
    let mut e = node_with(vec![None, None]);
    e.remove_child(NodeId(1));
    assert!(e.children.is_empty());
}

#[test]
fn remove_undoes_add_scenario() {
    let mut n = node_with(vec![Some(NodeId(2)), None, Some(NodeId(3))]);
    n.add_child(6, NodeId(8));
    n.remove_child(NodeId(8));
    assert_eq!(n.children, vec![Some(NodeId(2)), None, Some(NodeId(3))]);
}

#[test]
fn replace_child_first_slot_only() {
    let mut n = node_with(vec![None, Some(NodeId(3)), Some(NodeId(3))]);
    let diff = n.replace_child(NodeId(3), NodeId(4));
    assert_eq!(n.children, vec![None, Some(NodeId(4)), Some(NodeId(3))]);
    assert_eq!(diff.children, Some(n.children.clone()));
    n.replace_child(NodeId(10), NodeId(11));
    assert_eq!(n.children, vec![None, Some(NodeId(4)), Some(NodeId(3))]);
}

#[test]
fn node_apply_sets_given_parts() {
    let mut n = node_with(vec![Some(NodeId(2))]);
    n.apply(NodeDiff {
        rgb: Some((0.5, 0.25, 0.0)),
        transform: Some(TransformDiff { translation: None, rotation: None, scale: Some(2.0) }),
        data: Some(NodeDataDiff::SphereDiff(SphereDiff { radius: Some(4.0) })),
        children: None,
    });
    assert_eq!(n.rgb, (0.5, 0.25, 0.0));
    assert_eq!(n.transform.scale, 2.0);
    assert_eq!(n.transform.translation, [0.0; 3]);
    assert_eq!(n.data, NodeData::Sphere(Sphere { radius: 4.0 }));
    assert_eq!(n.children, vec![Some(NodeId(2))]);
}

#[test]
fn child_diff_replays_on_copy() {
    let before = node_with(vec![Some(NodeId(2))]);
    let mut after = node_with(vec![Some(NodeId(2))]);
    let diff = after.add_child(2, NodeId(3));
    let mut replay = before;
    replay.apply(diff);
    assert_eq!(replay.children, after.children);
}

#[test]
fn node_diff_into_option() {
    let empty: NodeDiff<f32, [f32; 3], [f32; 4]> = NodeDiff::default();
    assert!(empty.into_option().is_none());
    let d: NodeDiff<f32, [f32; 3], [f32; 4]> = NodeDiff { children: Some(vec![]), ..NodeDiff::default() };
    assert!(d.into_option().is_some());
}

#[test]
fn transform_diff_from_transform_replaces_all() {
    let target = Transform { translation: [1.0, 2.0, 3.0], rotation: [0.0, 1.0, 0.0, 0.0], scale: 0.5 };
    let diff: TransformDiff<f32, [f32; 3], [f32; 4]> = target.into();
    let mut t = identity();
    t.apply(diff);
    assert_eq!(t, target);
    assert!(diff.into_option().is_some());
    let none: TransformDiff<f32, [f32; 3], [f32; 4]> = TransformDiff { translation: None, rotation: None, scale: None };
    assert_eq!(none.into_option(), None);
    let mut u = identity();
    u.apply(none);
    assert_eq!(u, identity());
}
