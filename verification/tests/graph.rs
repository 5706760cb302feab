use std::collections::HashSet;

use shared::graph::{Graph, IdGenerator};
use shared::node::{NodeId, Transform};
use shared::node_data::{NodeData, Sphere, Union};

type G = Graph<f32, [f32; 3], [f32; 4]>;

fn identity() -> Transform<f32, [f32; 3], [f32; 4]> {
    Transform { translation: [0.0; 3], rotation: [0.0, 0.0, 0.0, 1.0], scale: 1.0 }
}

#[test]
fn generator_counts_up() {
    let mut g = IdGenerator::new();
    assert_eq!(g.generate(), NodeId(0));
    assert_eq!(g.generate(), NodeId(1));
    assert_eq!(g.generate(), NodeId(2));
}

#[test]
fn generator_reuses_returned_ids_first() {
    let mut returned = HashSet::new();
    returned.insert(3u32);
    returned.insert(5u32);
    let mut g = IdGenerator::from_parts(NodeId(10), returned);
    let a = g.generate();
    let b = g.generate();
    let mut got = vec![a.0, b.0];
    got.sort();
    assert_eq!(got, vec![3, 5]);
    assert_eq!(g.generate(), NodeId(10));
    assert_eq!(g.generate(), NodeId(11));
}

#[test]
fn add_then_get() {
    let mut g: G = Graph::new_authoritative();
    assert_eq!(g.root_node_id(), None);
    let a = g.add(NodeData::Sphere(Sphere { radius: 0.5 }), identity(), (1.0, 1.0, 1.0));
    let b = g.add(NodeData::Union(Union { factor: 0.0 }), identity(), (1.0, 1.0, 1.0));
    assert_eq!(a, NodeId(0));
    assert_eq!(b, NodeId(1));
    let na = g.get(a).unwrap();
    assert_eq!(na.id, a);
    assert_eq!(na.data, NodeData::Sphere(Sphere { radius: 0.5 }));
    assert!(na.children.is_empty());
    assert_eq!(na.rgb, (1.0, 1.0, 1.0));
    assert!(g.get(NodeId(2)).is_none());
}

#[test]
fn get_mut_changes_in_place() {
    let mut g: G = Graph::new_authoritative();
    let a = g.add(NodeData::Union(Union { factor: 0.0 }), identity(), (1.0, 1.0, 1.0));
    let b = g.add(NodeData::Sphere(Sphere { radius: 0.5 }), identity(), (1.0, 1.0, 1.0));
    g.get_mut(a).unwrap().add_child(0, b);
    assert_eq!(g.get(a).unwrap().children, vec![Some(b)]);
    assert!(g.get_mut(NodeId(9)).is_none());
}

#[test]
fn root_paths_name_the_model_types() {
    let mut g: shared::Graph<f32, [f32; 3], [f32; 4]> = shared::Graph::new_authoritative();
    let t = shared::Transform { translation: [0.0; 3], rotation: [0.0, 0.0, 0.0, 1.0], scale: 1.0 };
    let id: shared::NodeId = g.add(shared::NodeData::Union(shared::Union { factor: 0.0 }), t, (1.0, 1.0, 1.0));
    let n: &shared::Node<f32, [f32; 3], [f32; 4]> = g.get(id).unwrap();
    assert_eq!(shared::NodeDataMeta::category(&n.data), shared::NodeCategory::Operation);
}
