use shared::canonical::{DataType, Graph, GraphEvent, Input, NodeData, Output};
use shared::id::{Id, IdGenerator, InputId, NodeId, OutputId};

type G = Graph<[f32; 3], f32, [f32; 2]>;

#[test]
fn id_generator_counts_up() {
    let mut g: IdGenerator<InputId> = IdGenerator::new();
    assert_eq!(g.generate(), InputId(0));
    assert_eq!(g.generate(), InputId(1));
    let mut d: IdGenerator<OutputId> = IdGenerator::default();
    assert_eq!(d.generate().unwrap(), 0);
    assert_eq!(NodeId::new(7).unwrap(), 7);
}

#[test]
fn slot_types_per_kind() {
    let sphere: NodeData<[f32; 3], f32> = NodeData::sphere([0.0; 3], 1.0);
    assert_eq!(sphere.input_types(), &[] as &[DataType]);
    assert_eq!(sphere.output_types(), &[DataType::SignedDistance]);
    let out: NodeData<[f32; 3], f32> = NodeData::Output;
    assert_eq!(out.input_types(), &[DataType::SignedDistance]);
    assert_eq!(out.output_types(), &[] as &[DataType]);
    let union: NodeData<[f32; 3], f32> = NodeData::Union;
    assert_eq!(union.input_types(), &[DataType::SignedDistance, DataType::SignedDistance]);
    assert_eq!(union.output_types(), &[DataType::SignedDistance]);
}

#[test]
fn add_node_gives_fresh_slots() {
    let mut g: G = Graph::new();
    let s = g.add_node(NodeData::sphere([1.0, 2.0, 3.0], 0.5), [10.0, 20.0]);
    let u = g.add_node(NodeData::Union, [0.0, 0.0]);
    let o = g.add_node(NodeData::Output, [5.0, 5.0]);
    assert_eq!((s, u, o), (NodeId(0), NodeId(1), NodeId(2)));
    let sn = g.get_node(s).unwrap();
    assert_eq!(sn.inputs, vec![]);
    assert_eq!(sn.outputs, vec![Output(OutputId(0), DataType::SignedDistance)]);
    assert_eq!(sn.position, [10.0, 20.0]);
    let un = g.get_node(u).unwrap();
    assert_eq!(
        un.inputs,
        vec![Input(InputId(0), DataType::SignedDistance), Input(InputId(1), DataType::SignedDistance)]
    );
    assert_eq!(un.outputs, vec![Output(OutputId(1), DataType::SignedDistance)]);
    let on = g.get_node(o).unwrap();
    assert_eq!(on.inputs, vec![Input(InputId(2), DataType::SignedDistance)]);
    assert_eq!(g.nodes().len(), 3);
    assert_eq!(g.incoming_events().len(), 3);
}

#[test]
fn connect_by_ids_and_disconnect() {
    let mut g: G = Graph::new();
    let s = g.add_node(NodeData::sphere([0.0; 3], 1.0), [0.0, 0.0]);
    let u = g.add_node(NodeData::Union, [0.0, 0.0]);
    g.connect_by_ids((s, 0), (u, 1));
    assert_eq!(g.edges(), &vec![(OutputId(0), InputId(1))]);
    g.connect(OutputId(0), InputId(1));
    assert_eq!(g.edges().len(), 1);
    g.add_outgoing_and_apply_event(GraphEvent::Disconnect(OutputId(0), InputId(1)));
    assert!(g.edges().is_empty());
    g.add_outgoing_and_apply_event(GraphEvent::Disconnect(OutputId(0), InputId(1)));
    assert!(g.edges().is_empty());
}

#[test]
fn update_keeps_slots() {
    let mut g: G = Graph::new();
    let u = g.add_node(NodeData::Union, [0.0, 0.0]);
    g.add_outgoing_and_apply_event(GraphEvent::Update(u, NodeData::sphere([1.0; 3], 2.0), [3.0, 4.0]));
    let n = g.get_node(u).unwrap();
    assert_eq!(n.data, NodeData::sphere([1.0; 3], 2.0));
    assert_eq!(n.position, [3.0, 4.0]);
    assert_eq!(n.inputs.len(), 2);
    g.add_outgoing_and_apply_event(GraphEvent::Update(NodeId(40), NodeData::Output, [0.0, 0.0]));
    assert!(g.get_node(NodeId(40)).is_none());
}

#[test]
fn drain_hands_out_arrived_events() {
    let mut g: G = Graph::new();
    let s = g.add_node(NodeData::Output, [1.0, 1.0]);
    g.connect(OutputId(3), InputId(4));
    g.add_outgoing_and_apply_event(GraphEvent::Connect(OutputId(5), InputId(6)));
    let drained = g.drain_arrived_incoming_events();
    assert_eq!(
        drained,
        vec![GraphEvent::AddNode(s, NodeData::Output, [1.0, 1.0]), GraphEvent::Connect(OutputId(3), InputId(4))]
    );
    assert!(g.incoming_events().is_empty());
    assert!(g.drain_arrived_incoming_events().is_empty());
    assert_eq!(g.edges().len(), 2);
}

#[test]
fn remote_add_node_uses_given_id() {
    let mut g: G = Graph::new();
    g.add_outgoing_and_apply_event(GraphEvent::AddNode(NodeId(42), NodeData::Output, [0.0, 0.0]));
    assert_eq!(g.get_node(NodeId(42)).unwrap().inputs, vec![Input(InputId(0), DataType::SignedDistance)]);
    assert_eq!(g.request_node_id(), NodeId(0));
}

#[test]
fn edges_are_connections_not_undone() {
    let mut g: G = Graph::new();
    let a = g.add_node(NodeData::sphere([0.0; 3], 1.0), [0.0, 0.0]);
    let u = g.add_node(NodeData::Union, [0.0, 0.0]);
    g.connect_by_ids((a, 0), (u, 0));
    g.connect_by_ids((a, 0), (u, 1));
    g.connect_by_ids((a, 0), (u, 0));
    g.add_outgoing_and_apply_event(GraphEvent::Disconnect(OutputId(0), InputId(1)));
    assert_eq!(g.edges(), &vec![(OutputId(0), InputId(0))]);
    g.add_outgoing_and_apply_event(GraphEvent::Connect(OutputId(0), InputId(1)));
    assert_eq!(g.edges(), &vec![(OutputId(0), InputId(0)), (OutputId(0), InputId(1))]);
}

#[test]
fn incoming_log_since_last_drain() {
    let mut g: G = Graph::new();
    let a = g.add_node(NodeData::Output, [0.0, 0.0]);
    assert_eq!(g.incoming_events().len(), 1);
    let drained = g.drain_arrived_incoming_events();
    assert_eq!(drained, vec![GraphEvent::AddNode(a, NodeData::Output, [0.0, 0.0])]);
    let _ = g.request_node_id();
    g.add_outgoing_and_apply_event(GraphEvent::Connect(OutputId(5), InputId(6)));
    let b = g.add_node(NodeData::Union, [1.0, 1.0]);
    g.connect(OutputId(7), InputId(8));
    assert_eq!(
        g.incoming_events(),
        &[GraphEvent::AddNode(b, NodeData::Union, [1.0, 1.0]), GraphEvent::Connect(OutputId(7), InputId(8))][..]
    );
}
