use shared::canonical::{Graph, GraphEvent, NodeData};
use shared::client::sync::{
    canonical_data_to_ui_node, extract_canonical_data_from_ui_node, link_added_node, sync_canonical_to_ui,
    sync_ui_to_canonical, ui_node_to_canonical_data, ExtractError, UiNode, UiResponse, UiUpdate,
};
use shared::client::{
    CastError, DataType, GraphState, InputParamKind, NodeKind, NodeTemplate, NodeTemplatesAll, SlotColour, Value,
};
use shared::id::{InputId, NodeId, OutputId};

type V = [f32; 3];
type G = Graph<V, f32, [f32; 2]>;

#[test]
fn slot_colours() {
    assert_eq!(DataType::Scalar.data_type_color(), SlotColour::LightRed);
    assert_eq!(DataType::Vec3.data_type_color(), SlotColour::LightBlue);
    assert_eq!(DataType::SignedDistance.data_type_color(), SlotColour::LightGreen);
}

#[test]
fn value_casts() {
    let v: Value<V, f32> = Value::Vec3 { value: [1.0, 2.0, 3.0] };
    assert_eq!(v.try_to_vec3(), Ok([1.0, 2.0, 3.0]));
    assert_eq!(v.try_to_scalar(), Err(CastError { from: v, to: DataType::Scalar }));
    let s: Value<V, f32> = Value::Scalar { value: 0.5 };
    assert_eq!(s.try_to_scalar(), Ok(0.5));
    assert_eq!(s.try_to_vec3(), Err(CastError { from: s, to: DataType::Vec3 }));
    let d: Value<V, f32> = Value::SignedDistance;
    assert!(d.try_to_vec3().is_err() && d.try_to_scalar().is_err());
}

#[test]
fn build_node_slots() {
    let all = NodeTemplatesAll.all_kinds([0.0f32; 3], 1.0f32);
    let sphere = all[0].build_node();
    let names: Vec<&str> = sphere.inputs.iter().map(|p| p.name.as_str()).collect();
    assert_eq!(names, vec!["center", "radius"]);
    assert_eq!(sphere.inputs[0].data_type, DataType::Vec3);
    assert_eq!(sphere.inputs[0].value, Value::Vec3 { value: [0.0; 3] });
    assert_eq!(sphere.inputs[1].value, Value::Scalar { value: 1.0 });
    assert_eq!(sphere.inputs[1].kind, InputParamKind::ConstantOnly);
    assert!(sphere.inputs.iter().all(|p| p.shown_inline));
    assert_eq!(sphere.outputs.len(), 1);
    assert_eq!(sphere.outputs[0].name, "out");
    assert_eq!(sphere.outputs[0].data_type, DataType::SignedDistance);

    let output = all[1].build_node();
    assert_eq!(output.inputs.len(), 1);
    assert_eq!(output.inputs[0].name, "in");
    assert_eq!(output.inputs[0].kind, InputParamKind::ConnectionOnly);
    assert_eq!(output.inputs[0].value, Value::SignedDistance);
    assert!(output.outputs.is_empty());

    let union = all[2].build_node();
    let names: Vec<&str> = union.inputs.iter().map(|p| p.name.as_str()).collect();
    assert_eq!(names, vec!["lhs", "rhs"]);
    assert!(union.inputs.iter().all(|p| p.data_type == DataType::SignedDistance));
    assert_eq!(union.outputs[0].name, "out");
}

#[test]
fn values_of_canonical_data() {
    let s: NodeData<V, f32> = NodeData::sphere([1.0, 0.0, 0.0], 2.0);
    assert_eq!(
        canonical_data_to_ui_node(&s),
        vec![Value::Vec3 { value: [1.0, 0.0, 0.0] }, Value::Scalar { value: 2.0 }]
    );
    assert!(canonical_data_to_ui_node(&NodeData::<V, f32>::Union).is_empty());
}

#[test]
fn reading_an_editor_node() {
    let ok = UiNode { kind: NodeKind::Sphere, inputs: vec![Value::Vec3 { value: [0.0, 1.0, 0.0] }, Value::Scalar { value: 3.0 }] };
    assert_eq!(ui_node_to_canonical_data(&ok), Ok(NodeData::sphere([0.0, 1.0, 0.0], 3.0)));
    let bad_center: UiNode<V, f32> = UiNode { kind: NodeKind::Sphere, inputs: vec![Value::Scalar { value: 1.0 }, Value::Scalar { value: 3.0 }] };
    assert_eq!(
        ui_node_to_canonical_data(&bad_center),
        Err(CastError { from: Value::Scalar { value: 1.0 }, to: DataType::Vec3 })
    );
    let bad_radius: UiNode<V, f32> = UiNode { kind: NodeKind::Sphere, inputs: vec![Value::Vec3 { value: [0.0; 3] }, Value::SignedDistance] };
    assert_eq!(
        ui_node_to_canonical_data(&bad_radius),
        Err(CastError { from: Value::SignedDistance, to: DataType::Scalar })
    );
    let union: UiNode<V, f32> = UiNode { kind: NodeKind::Union, inputs: vec![] };
    assert_eq!(ui_node_to_canonical_data(&union), Ok(NodeData::Union));
}

#[test]
fn extracting_fails_in_order() {
    let mut st = GraphState::new();
    let node: UiNode<V, f32> = UiNode { kind: NodeKind::Output, inputs: vec![] };
    assert_eq!(extract_canonical_data_from_ui_node::<V, f32, [f32; 2]>(&st, 7, None, Some([0.0f32, 0.0])), Err(ExtractError::NoUiNode));
    assert_eq!(extract_canonical_data_from_ui_node(&st, 7, Some(&node), Some([0.0f32, 0.0])), Err(ExtractError::NoCanonicalId));
    st.link_nodes(NodeId(4), 7);
    assert_eq!(extract_canonical_data_from_ui_node::<V, f32, [f32; 2]>(&st, 7, Some(&node), None), Err(ExtractError::NoPosition));
    let bad: UiNode<V, f32> = UiNode { kind: NodeKind::Sphere, inputs: vec![Value::SignedDistance, Value::SignedDistance] };
    assert_eq!(
        extract_canonical_data_from_ui_node::<V, f32, [f32; 2]>(&st, 7, Some(&bad), None),
        Err(ExtractError::InvalidCast(CastError { from: Value::SignedDistance, to: DataType::Vec3 }))
    );
    assert_eq!(
        extract_canonical_data_from_ui_node(&st, 7, Some(&node), Some([1.0f32, 2.0])),
        Ok((NodeId(4), NodeData::Output, [1.0, 2.0]))
    );
}

#[test]
fn editor_responses_reach_the_graph() {
    let mut g: G = Graph::new();
    let mut st = GraphState::new();
    let sphere = UiNode { kind: NodeKind::Sphere, inputs: vec![Value::Vec3 { value: [0.0; 3] }, Value::Scalar { value: 1.0 }] };
    sync_ui_to_canonical(UiResponse::CreatedNode(100), Some(&sphere), Some([5.0, 6.0]), &mut st, &mut g);
    assert_eq!(st.ui_node_id_to_canonical(100), Some(NodeId(0)));
    let n = g.get_node(NodeId(0)).unwrap();
    assert_eq!(n.data, NodeData::sphere([0.0; 3], 1.0));
    assert_eq!(n.position, [5.0, 6.0]);
    assert_eq!(n.outputs.len(), 1);

    let union: UiNode<V, f32> = UiNode { kind: NodeKind::Union, inputs: vec![Value::SignedDistance, Value::SignedDistance] };
    sync_ui_to_canonical(UiResponse::CreatedNode(101), Some(&union), Some([0.0, 0.0]), &mut st, &mut g);
    assert_eq!(st.ui_node_id_to_canonical(101), Some(NodeId(1)));
    let u = g.get_node(NodeId(1)).unwrap();
    assert_eq!(u.inputs.len(), 2);
    link_added_node(&g, &mut st, NodeId(1), 101, &[300, 301], &[400]);
    link_added_node(&g, &mut st, NodeId(0), 100, &[310, 311], &[410]);
    assert_eq!(st.ui_input_id_to_canonical(300), Some(InputId(0)));
    assert_eq!(st.ui_output_id_to_canonical(410), Some(OutputId(0)));

    sync_ui_to_canonical::<V, f32, [f32; 2]>(UiResponse::ConnectEventEnded { output: 410, input: 300 }, None, None, &mut st, &mut g);
    assert_eq!(g.edges(), &vec![(OutputId(0), InputId(0))]);
    sync_ui_to_canonical::<V, f32, [f32; 2]>(UiResponse::DisconnectEvent { output: 410, input: 300 }, None, None, &mut st, &mut g);
    assert!(g.edges().is_empty());

    let moved = UiNode { kind: NodeKind::Sphere, inputs: vec![Value::Vec3 { value: [1.0; 3] }, Value::Scalar { value: 2.0 }] };
    sync_ui_to_canonical(UiResponse::RaiseNode(100), Some(&moved), Some([9.0, 9.0]), &mut st, &mut g);
    let n = g.get_node(NodeId(0)).unwrap();
    assert_eq!(n.data, NodeData::sphere([1.0; 3], 2.0));
    assert_eq!(n.position, [9.0, 9.0]);

    sync_ui_to_canonical::<V, f32, [f32; 2]>(UiResponse::Other, None, None, &mut st, &mut g);
    assert_eq!(g.nodes().len(), 2);
    assert!(g.incoming_events().is_empty());
}

#[test]
fn canonical_events_reach_the_editor() {
    let mut g: G = Graph::new();
    let id = g.add_node(NodeData::Union, [0.0, 0.0]);
    let mut st = GraphState::new();
    match sync_canonical_to_ui(GraphEvent::AddNode(id, NodeData::<V, f32>::Union, [1.0, 1.0]), &st) {
        UiUpdate::AddNode { node_id, template, position } => {
            assert_eq!(node_id, id);
            assert_eq!(template.node_graph_label(), "Union");
            assert_eq!(position, [1.0, 1.0]);
        }
        _ => panic!("expected a new node"),
    }
    link_added_node(&g, &mut st, id, 55, &[60, 61], &[70]);
    assert_eq!(st.canonical_node_id_to_ui(id), Some(55));
    match sync_canonical_to_ui(GraphEvent::Update(id, NodeData::<V, f32>::sphere([2.0; 3], 4.0), [3.0, 3.0]), &st) {
        UiUpdate::Update { ui_node, values, position } => {
            assert_eq!(ui_node, 55);
            assert_eq!(values, vec![Value::Vec3 { value: [2.0; 3] }, Value::Scalar { value: 4.0 }]);
            assert_eq!(position, [3.0, 3.0]);
        }
        _ => panic!("expected an update"),
    }
    match sync_canonical_to_ui(GraphEvent::<V, f32, [f32; 2]>::Connect(OutputId(0), InputId(1)), &st) {
        UiUpdate::Connect { output, input } => assert_eq!((output, input), (70, 61)),
        _ => panic!("expected a connection"),
    }
    match sync_canonical_to_ui(GraphEvent::<V, f32, [f32; 2]>::Disconnect(OutputId(0), InputId(0)), &st) {
        UiUpdate::Disconnect { input, output } => assert_eq!((input, output), (60, 70)),
        _ => panic!("expected a disconnection"),
    }
}

#[test]
fn connection_comes_back_to_the_same_slots() {
    let mut g: G = Graph::new();
    let mut st = GraphState::new();
    let a = g.add_node(NodeData::sphere([0.0; 3], 1.0), [0.0, 0.0]);
    let b = g.add_node(NodeData::Output, [0.0, 0.0]);
    link_added_node(&g, &mut st, a, 1, &[11, 12], &[13]);
    link_added_node(&g, &mut st, b, 2, &[21], &[]);
    sync_ui_to_canonical::<V, f32, [f32; 2]>(UiResponse::ConnectEventEnded { output: 13, input: 21 }, None, None, &mut st, &mut g);
    let (o, i) = g.edges()[0];
    match sync_canonical_to_ui(GraphEvent::<V, f32, [f32; 2]>::Connect(o, i), &st) {
        UiUpdate::Connect { output, input } => assert_eq!((output, input), (13, 21)),
        _ => panic!("expected a connection"),
    }
}

#[test]
fn templates_read_back() {
    let t = NodeTemplate::new(NodeData::<V, f32>::sphere([3.0; 3], 0.25));
    let params = t.build_node();
    let node = UiNode { kind: t.user_data().kind, inputs: params.inputs.iter().map(|p| p.value).collect() };
    assert_eq!(ui_node_to_canonical_data(&node), Ok(t.canonical_node));
}

#[test]
fn shown_values_read_back() {
    for data in [NodeData::<V, f32>::sphere([0.5, 0.25, 1.0], 7.0), NodeData::Output, NodeData::Union] {
        let node = UiNode { kind: NodeKind::from(&data), inputs: canonical_data_to_ui_node(&data) };
        if node.kind != NodeKind::Sphere || node.inputs.len() >= 2 {
            assert_eq!(ui_node_to_canonical_data(&node), Ok(data));
        }
    }
}

#[test]
fn editor_slots_cover_canonical_slots() {
    for data in [NodeData::<V, f32>::sphere([0.0; 3], 1.0), NodeData::Output, NodeData::Union] {
        let params = NodeTemplate::new(data).build_node();
        let inputs = data.input_types();
        let outputs = data.output_types();
        assert!(inputs.len() <= params.inputs.len());
        assert_eq!(outputs.len(), params.outputs.len());
        for (i, t) in inputs.iter().enumerate() {
            assert_eq!(format!("{:?}", params.inputs[i].data_type), format!("{:?}", t));
        }
        for (i, t) in outputs.iter().enumerate() {
            assert_eq!(format!("{:?}", params.outputs[i].data_type), format!("{:?}", t));
        }
    }
}
