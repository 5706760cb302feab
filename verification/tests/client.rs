use shared::canonical::{Graph, NodeData};
use shared::client::{
    link_canonical_and_ui_io, DataType, GraphState, NodeKind, NodeTemplate, NodeTemplatesAll, RenderParameters,
    SelectedNode,
};
use shared::id::{InputId, NodeId as CanonicalNodeId, OutputId};
use shared::node::NodeId;

#[test]
fn labels_and_names() {
    assert_eq!(NodeKind::Sphere.label(), "Sphere");
    assert_eq!(NodeKind::Output.label(), "Output");
    assert_eq!(NodeKind::Union.label(), "Union");
    assert_eq!(DataType::Scalar.name(), "scalar");
    assert_eq!(DataType::Vec3.name(), "3d vector");
    assert_eq!(DataType::SignedDistance.name(), "signed distance");
    let p = RenderParameters { wireframe: false, colours: true };
    assert!(p == RenderParameters { wireframe: false, colours: true });
}

#[test]
fn kind_of_canonical_node() {
    let s: NodeData<[f32; 3], f32> = NodeData::sphere([0.0; 3], 1.0);
    assert_eq!(NodeKind::from(&s), NodeKind::Sphere);
    assert_eq!(NodeKind::from(&NodeData::<[f32; 3], f32>::Union), NodeKind::Union);
    let t = NodeTemplate::new(NodeData::<[f32; 3], f32>::Output);
    assert_eq!(t.node_finder_label(), "Output");
    assert_eq!(t.node_graph_label(), "Output".to_string());
    assert_eq!(t.user_data().kind, NodeKind::Output);
}

#[test]
fn all_templates_in_order() {
    let all = NodeTemplatesAll.all_kinds([0.0f32; 3], 1.0f32);
    let labels: Vec<&str> = all.iter().map(|t| t.node_finder_label()).collect();
    assert_eq!(labels, vec!["Sphere", "Output", "Union"]);
    assert_eq!(all[0].canonical_node, NodeData::sphere([0.0; 3], 1.0));
}

#[test]
fn select_toggles() {
    let mut s = SelectedNode::default();
    assert!(!s.is_selected(NodeId(1)));
    s.select(NodeId(1));
    assert!(s.is_selected(NodeId(1)));
    s.select(NodeId(2));
    assert!(s.is_selected(NodeId(2)) && !s.is_selected(NodeId(1)));
    s.select(NodeId(2));
    assert!(s == SelectedNode::Initialized(None));
}

#[test]
fn link_pairs_slots_in_order() {
    let mut g: Graph<[f32; 3], f32, [f32; 2]> = Graph::new();
    let _ = g.add_node(NodeData::Output, [0.0, 0.0]);
    let u = g.add_node(NodeData::Union, [0.0, 0.0]);
    let mut st = GraphState::new();
    st.link_nodes(u, 500);
    link_canonical_and_ui_io(&g, &mut st, u, &[100, 101, 102], &[200]);
    assert_eq!(st.canonical_node_id_to_ui(u), Some(500));
    assert_eq!(st.ui_node_id_to_canonical(500), Some(CanonicalNodeId(1)));
    assert_eq!(st.canonical_input_id_to_ui(InputId(1)), Some(100));
    assert_eq!(st.canonical_input_id_to_ui(InputId(2)), Some(101));
    assert_eq!(st.ui_input_id_to_canonical(102), None);
    assert_eq!(st.ui_output_id_to_canonical(200), Some(OutputId(0)));
    assert_eq!(st.canonical_output_id_to_ui(OutputId(1)), None);
    st.link_nodes(u, 501);
    assert_eq!(st.ui_node_id_to_canonical(500), None);
    assert_eq!(st.canonical_node_id_to_ui(u), Some(501));
}
