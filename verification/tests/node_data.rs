use shared::node_data::{
    BiconvexLens, Box, Capsule, Cone, Cylinder, CylinderDiff, Intersect, NodeCategory, NodeData, NodeDataDiff,
    NodeDataMeta, Plane, Sphere, SphereDiff, Subtract, TaperedCapsule, Torus, TorusSector, Union, UnionDiff,
};

type Data = NodeData<f32, [f32; 3]>;

fn every_kind() -> Vec<Data> {
    vec![
        NodeData::Sphere(Sphere { radius: 0.5 }),
        NodeData::Cylinder(Cylinder { cylinder_radius: 0.5, half_height: 0.5, rounding_radius: 0.0 }),
        NodeData::Torus(Torus { big_r: 0.5, small_r: 0.1 }),
        NodeData::Plane(Plane { normal: [0.0, 1.0, 0.0], distance_from_origin: 0.0 }),
        NodeData::Capsule(Capsule { point_1: [0.0, -0.5, 0.0], point_2: [0.0, 0.5, 0.0], radius: 0.5 }),
        NodeData::TaperedCapsule(TaperedCapsule {
            point_1: [0.0, -0.5, 0.0],
            point_2: [0.0, 0.5, 0.0],
            radius_1: 0.5,
            radius_2: 0.5,
        }),
        NodeData::Cone(Cone { radius: 0.5, height: 1.0 }),
        NodeData::Box(Box { half_size: [0.5, 0.5, 0.5], rounding_radius: 0.0 }),
        NodeData::TorusSector(TorusSector { big_r: 0.5, small_r: 0.1, angle: 3.14 }),
        NodeData::BiconvexLens(BiconvexLens { lower_sagitta: 0.5, upper_sagitta: 0.5, chord: 1.0 }),
        NodeData::Union(Union { factor: 0.0 }),
        NodeData::Intersect(Intersect { factor: 0.0 }),
        NodeData::Subtract(Subtract { factor: 0.0 }),
    ]
}

#[test]
fn names_of_every_kind() {
    let names: Vec<&str> = every_kind().iter().map(|d| d.name()).collect();
    assert_eq!(
        names,
        vec![
            "Sphere",
            "Cylinder",
            "Torus",
            "Plane",
            "Capsule",
            "Tapered Capsule",
            "Cone",
            "Box",
            "Torus Sector",
            "Biconvex Lens",
            "Union",
            "Intersect",
            "Subtract"
        ]
    );
}

#[test]
fn only_operations_have_children() {
    for d in every_kind() {
        let is_operation = d.category() == NodeCategory::Operation;
        assert_eq!(d.can_have_children(), is_operation, "{}", d.name());
    }
    assert_eq!(every_kind().iter().filter(|d| d.category() == NodeCategory::Primitive).count(), 10);
}

#[test]
fn diff_sets_only_given_fields() {
    let mut c = Cylinder { cylinder_radius: 0.5, half_height: 0.5, rounding_radius: 0.0 };
    c.apply(CylinderDiff { cylinder_radius: None, half_height: Some(2.0), rounding_radius: None });
    assert_eq!(c, Cylinder { cylinder_radius: 0.5, half_height: 2.0, rounding_radius: 0.0 });
}

#[test]
fn node_data_apply_matching_and_other_kind() {
    let mut d: Data = NodeData::Sphere(Sphere { radius: 0.5 });
    d.apply(NodeDataDiff::SphereDiff(SphereDiff { radius: Some(3.0) }));
    assert_eq!(d, NodeData::Sphere(Sphere { radius: 3.0 }));
    d.apply(NodeDataDiff::UnionDiff(UnionDiff { factor: Some(1.0) }));
    assert_eq!(d, NodeData::Sphere(Sphere { radius: 3.0 }));
}

#[test]
fn diff_into_option() {
    let empty: SphereDiff<f32> = SphereDiff { radius: None };
    assert_eq!(empty.into_option(), None);
    let some = SphereDiff { radius: Some(1.5f32) };
    assert_eq!(some.into_option(), Some(SphereDiff { radius: Some(1.5) }));
    let partial = CylinderDiff { cylinder_radius: None, half_height: None, rounding_radius: Some(0.1f32) };
    assert!(partial.into_option().is_some());
}

#[test]
fn kinds_and_diffs_convert_into_node_data() {
    let d: NodeData<f32, [f32; 3]> = Sphere { radius: 0.5 }.into();
    assert_eq!(d, NodeData::Sphere(Sphere { radius: 0.5 }));
    let b: NodeData<f32, [f32; 3]> = NodeData::from(shared::node_data::Box { half_size: [1.0; 3], rounding_radius: 0.0 });
    assert_eq!(b.name(), "Box");
    let diff: NodeDataDiff<f32, [f32; 3]> = SphereDiff { radius: Some(2.0) }.into();
    assert_eq!(diff, NodeDataDiff::SphereDiff(SphereDiff { radius: Some(2.0) }));
    let mut e = d;
    e.apply(diff);
    assert_eq!(e, NodeData::Sphere(Sphere { radius: 2.0 }));
}
