//! The canonical node graph shared by the editor and the server: nodes with
//! typed input and output slots, connections between slots, and the log of
//! events that built it.
//!
//! Vectors have type `V`, scalars type `S` and editor positions type `P`;
//! they are carried, never computed with.

use std::collections::HashMap;

use vstd::prelude::*;

use crate::id::{Id, IdGenerator, InputId, NodeId, OutputId};

verus! {

broadcast use vstd::std_specs::hash::group_hash_axioms;

/// What flows through a slot.
#[derive(Debug, PartialEq, Eq, Clone, Copy, Structural)]
pub enum DataType {
    Scalar,
    Vec3,
    SignedDistance,
}

/// An input slot of a node.
#[derive(Debug, Clone, Copy, PartialEq, Eq, Structural)]
pub struct Input(pub InputId, pub DataType);

/// An output slot of a node.
#[derive(Debug, Clone, Copy, PartialEq, Eq, Structural)]
pub struct Output(pub OutputId, pub DataType);

/// What a node computes.
#[derive(Debug, Clone, Copy, PartialEq)]
pub enum NodeData<V, S> {
    Sphere { center: V, radius: S },
    Output,
    Union,
}

impl<V: Copy, S: Copy> NodeData<V, S> {
    pub fn sphere(center: V, radius: S) -> (r: NodeData<V, S>)
        ensures
            r == (NodeData::Sphere { center, radius }),
    {
        NodeData::Sphere { center, radius }
    }

    /// The types of the input slots of such a node, in order.
    pub open spec fn spec_input_types(&self) -> Seq<DataType> {
        match self {
            NodeData::Sphere { .. } => seq![],
            NodeData::Output => seq![DataType::SignedDistance],
            NodeData::Union => seq![DataType::SignedDistance, DataType::SignedDistance],
        }
    }

    /// The types of the output slots of such a node, in order.
    pub open spec fn spec_output_types(&self) -> Seq<DataType> {
        match self {
            NodeData::Sphere { .. } => seq![DataType::SignedDistance],
            NodeData::Output => seq![],
            NodeData::Union => seq![DataType::SignedDistance],
        }
    }

    pub fn input_types(&self) -> (r: &'static [DataType])
        ensures
            r@ == self.spec_input_types(),
    {
        match self {
            NodeData::Sphere { .. } => &[],
            NodeData::Output => &[DataType::SignedDistance],
            NodeData::Union => &[DataType::SignedDistance, DataType::SignedDistance],
        }
    }

    pub fn output_types(&self) -> (r: &'static [DataType])
        ensures
            r@ == self.spec_output_types(),
    {
        match self {
            NodeData::Sphere { .. } => &[DataType::SignedDistance],
            NodeData::Output => &[],
            NodeData::Union => &[DataType::SignedDistance],
        }
    }
}


/// A node of the canonical graph, placed at `position` in the editor.
#[derive(Debug, Clone, PartialEq)]
pub struct Node<V, S, P> {
    pub id: NodeId,
    pub data: NodeData<V, S>,
    pub position: P,
    pub inputs: Vec<Input>,
    pub outputs: Vec<Output>,
}

/// A node as a value: its slots as sequences.
pub struct NodeView<V, S, P> {
    pub id: NodeId,
    pub data: NodeData<V, S>,
    pub position: P,
    pub inputs: Seq<Input>,
    pub outputs: Seq<Output>,
}

impl<V, S, P> View for Node<V, S, P> {
    type V = NodeView<V, S, P>;

    open spec fn view(&self) -> NodeView<V, S, P> {
        NodeView {
            id: self.id,
            data: self.data,
            position: self.position,
            inputs: self.inputs@,
            outputs: self.outputs@,
        }
    }
}

/// A change to the graph.
#[derive(Debug, Clone, Copy, PartialEq)]
pub enum GraphEvent<V, S, P> {
    /// A node with this id, data and position, whose slots get fresh ids.
    AddNode(NodeId, NodeData<V, S>, P),
    /// New data and position for an existing node; its slots stay.
    Update(NodeId, NodeData<V, S>, P),
    Connect(OutputId, InputId),
    Disconnect(OutputId, InputId),
}

/// Input slots of the given types whose ids count up from `first`.
pub open spec fn inputs_from(types: Seq<DataType>, first: u32) -> Seq<Input> {
    Seq::new(types.len(), |i: int| Input(InputId((first + i) as u32), types[i]))
}

/// Output slots of the given types whose ids count up from `first`.
pub open spec fn outputs_from(types: Seq<DataType>, first: u32) -> Seq<Output> {
    Seq::new(types.len(), |i: int| Output(OutputId((first + i) as u32), types[i]))
}

/// Every input id of every node lies below `bound`.
pub open spec fn input_ids_below<V, S, P>(nodes: Map<u32, NodeView<V, S, P>>, bound: u32) -> bool {
    forall|k: u32, j: int|
        nodes.contains_key(k) && 0 <= j < nodes[k].inputs.len() ==> (#[trigger] nodes[k].inputs[j]).0.0 < bound
}

/// Every output id of every node lies below `bound`.
pub open spec fn output_ids_below<V, S, P>(nodes: Map<u32, NodeView<V, S, P>>, bound: u32) -> bool {
    forall|k: u32, j: int|
        nodes.contains_key(k) && 0 <= j < nodes[k].outputs.len() ==> (#[trigger] nodes[k].outputs[j]).0.0 < bound
}

/// No two input slots of the graph share an id.
pub open spec fn input_ids_distinct<V, S, P>(nodes: Map<u32, NodeView<V, S, P>>) -> bool {
    forall|k1: u32, j1: int, k2: u32, j2: int|
        nodes.contains_key(k1) && nodes.contains_key(k2) && 0 <= j1 < nodes[k1].inputs.len() && 0 <= j2
            < nodes[k2].inputs.len() && (k1 != k2 || j1 != j2) ==> (#[trigger] nodes[k1].inputs[j1]).0
            != (#[trigger] nodes[k2].inputs[j2]).0
}

/// No two output slots of the graph share an id.
pub open spec fn output_ids_distinct<V, S, P>(nodes: Map<u32, NodeView<V, S, P>>) -> bool {
    forall|k1: u32, j1: int, k2: u32, j2: int|
        nodes.contains_key(k1) && nodes.contains_key(k2) && 0 <= j1 < nodes[k1].outputs.len() && 0 <= j2
            < nodes[k2].outputs.len() && (k1 != k2 || j1 != j2) ==> (#[trigger] nodes[k1].outputs[j1]).0
            != (#[trigger] nodes[k2].outputs[j2]).0
}

/// The canonical graph: nodes by the integer of their id, the connections
/// from output slots to input slots, and the events applied so far.
#[derive(Debug)]
pub struct Graph<V, S, P> {
    nodes: HashMap<u32, Node<V, S, P>>,
    edges: Vec<(OutputId, InputId)>,
    incoming_events: Vec<GraphEvent<V, S, P>>,
    outgoing_events: Vec<GraphEvent<V, S, P>>,
    node_id_generator: IdGenerator<NodeId>,
    input_id_generator: IdGenerator<InputId>,
    output_id_generator: IdGenerator<OutputId>,
}

impl<V: Copy, S: Copy, P: Copy> Graph<V, S, P> {
    /// The nodes, by the integer of their id.
    pub closed spec fn node_map(&self) -> Map<u32, NodeView<V, S, P>> {
        self.nodes@.map_values(|n: Node<V, S, P>| n@)
    }

    /// The connections, in the order they were made.
    pub closed spec fn edge_list(&self) -> Seq<(OutputId, InputId)> {
        self.edges@
    }

    /// The events that arrived and have not been drained yet.
    pub closed spec fn incoming_log(&self) -> Seq<GraphEvent<V, S, P>> {
        self.incoming_events@
    }

    /// The events made here, in order.
    pub closed spec fn outgoing_log(&self) -> Seq<GraphEvent<V, S, P>> {
        self.outgoing_events@
    }

    /// The integer of the node id handed out next.
    pub closed spec fn next_node(&self) -> u32 {
        self.node_id_generator.next()
    }

    /// The integer of the input id handed out next.
    pub closed spec fn next_input(&self) -> u32 {
        self.input_id_generator.next()
    }

    /// The integer of the output id handed out next.
    pub closed spec fn next_output(&self) -> u32 {
        self.output_id_generator.next()
    }

    /// Each node is stored under its own id, every slot has its own id below
    /// the next one handed out, and no connection is listed twice.
    pub open spec fn wf(&self) -> bool {
        &&& forall|k: u32| #[trigger] self.node_map().contains_key(k) ==> self.node_map()[k].id.0 == k
        &&& input_ids_below(self.node_map(), self.next_input())
        &&& output_ids_below(self.node_map(), self.next_output())
        &&& input_ids_distinct(self.node_map())
        &&& output_ids_distinct(self.node_map())
        &&& self.edge_list().no_duplicates()
    }

    /// Whether the id generators have room for the slots of the node that
    /// `event` adds.
    pub open spec fn has_room_for(&self, event: GraphEvent<V, S, P>) -> bool {
        match event {
            GraphEvent::AddNode(_, data, _) => {
                &&& self.next_input() + data.spec_input_types().len() <= u32::MAX
                &&& self.next_output() + data.spec_output_types().len() <= u32::MAX
            },
            _ => true,
        }
    }

    /// The node map, id counters and connections after `event`.
    pub open spec fn applies(old: Self, new: Self, event: GraphEvent<V, S, P>) -> bool {
        &&& new.next_node() == old.next_node()
        &&& Self::changes(old, new, event)
    }

    /// The node map, slot id counters and connections after `event`; the
    /// node id counter is left out.
    pub open spec fn changes(old: Self, new: Self, event: GraphEvent<V, S, P>) -> bool {
        match event {
            GraphEvent::AddNode(id, data, position) => {
                &&& new.node_map() == old.node_map().insert(
                    id.0,
                    NodeView {
                        id,
                        data,
                        position,
                        inputs: inputs_from(data.spec_input_types(), old.next_input()),
                        outputs: outputs_from(data.spec_output_types(), old.next_output()),
                    },
                )
                &&& new.next_input() == old.next_input() + data.spec_input_types().len()
                &&& new.next_output() == old.next_output() + data.spec_output_types().len()
                &&& new.edge_list() == old.edge_list()
            },
            GraphEvent::Update(id, data, position) => {
                &&& new.node_map() == (if old.node_map().contains_key(id.0) {
                    old.node_map().insert(
                        id.0,
                        NodeView { data, position, ..old.node_map()[id.0] },
                    )
                } else {
                    old.node_map()
                })
                &&& new.next_input() == old.next_input()
                &&& new.next_output() == old.next_output()
                &&& new.edge_list() == old.edge_list()
            },
            GraphEvent::Connect(o, i) => {
                &&& new.node_map() == old.node_map()
                &&& new.next_input() == old.next_input()
                &&& new.next_output() == old.next_output()
                &&& new.edge_list() == (if old.edge_list().contains((o, i)) {
                    old.edge_list()
                } else {
                    old.edge_list().push((o, i))
                })
            },
            GraphEvent::Disconnect(o, i) => {
                &&& new.node_map() == old.node_map()
                &&& new.next_input() == old.next_input()
                &&& new.next_output() == old.next_output()
                &&& new.edge_list() == old.edge_list().remove_value((o, i))
            },
        }
    }
}


/// A public call on the canonical graph, with the event it applies where it
/// applies one.
pub enum GraphCall<V, S, P> {
    /// [`Graph::add_node`]: a node with the next node id; the event is
    /// recorded as incoming.
    AddNode(GraphEvent<V, S, P>),
    /// [`Graph::connect`] or [`Graph::connect_by_ids`]: a connection; the
    /// event is recorded as incoming.
    Connect(GraphEvent<V, S, P>),
    /// [`Graph::add_outgoing_and_apply_event`]: any event, recorded as
    /// outgoing.
    Outgoing(GraphEvent<V, S, P>),
    /// [`Graph::request_node_id`].
    RequestNodeId,
    /// [`Graph::drain_arrived_incoming_events`].
    Drain,
}

/// The event that a call applies, if it applies one.
pub open spec fn event_of_call<V, S, P>(call: GraphCall<V, S, P>) -> Option<GraphEvent<V, S, P>> {
    match call {
        GraphCall::AddNode(e) => Some(e),
        GraphCall::Connect(e) => Some(e),
        GraphCall::Outgoing(e) => Some(e),
        _ => None,
    }
}

impl<V: Copy, S: Copy, P: Copy> Graph<V, S, P> {
    /// What one public call does to the graph.
    pub open spec fn call_step(old: Self, new: Self, call: GraphCall<V, S, P>) -> bool {
        match call {
            GraphCall::AddNode(e) => {
                &&& e matches GraphEvent::AddNode(id, _, _) && id.0 == old.next_node()
                &&& new.next_node() == old.next_node() + 1
                &&& Self::changes(old, new, e)
                &&& new.incoming_log() == old.incoming_log().push(e)
                &&& new.outgoing_log() == old.outgoing_log()
            },
            GraphCall::Connect(e) => {
                &&& e is Connect
                &&& Self::applies(old, new, e)
                &&& new.incoming_log() == old.incoming_log().push(e)
                &&& new.outgoing_log() == old.outgoing_log()
            },
            GraphCall::Outgoing(e) => {
                &&& Self::applies(old, new, e)
                &&& new.outgoing_log() == old.outgoing_log().push(e)
                &&& new.incoming_log() == old.incoming_log()
            },
            GraphCall::RequestNodeId => {
                &&& new.next_node() == old.next_node() + 1
                &&& new.node_map() == old.node_map()
                &&& new.edge_list() == old.edge_list()
                &&& new.next_input() == old.next_input()
                &&& new.next_output() == old.next_output()
                &&& new.incoming_log() == old.incoming_log()
                &&& new.outgoing_log() == old.outgoing_log()
            },
            GraphCall::Drain => {
                &&& new.incoming_log() == Seq::<GraphEvent<V, S, P>>::empty()
                &&& new.next_node() == old.next_node()
                &&& new.node_map() == old.node_map()
                &&& new.edge_list() == old.edge_list()
                &&& new.next_input() == old.next_input()
                &&& new.next_output() == old.next_output()
                &&& new.outgoing_log() == old.outgoing_log()
            },
        }
    }

    /// Whether the graphs `gs` are the states of one graph as the calls
    /// `calls` are made on it, in order.
    pub open spec fn built_by(gs: Seq<Self>, calls: Seq<GraphCall<V, S, P>>) -> bool {
        &&& gs.len() == calls.len() + 1
        &&& forall|k: int| 0 <= k < calls.len() ==> Self::call_step(gs[k], gs[k + 1], #[trigger] calls[k])
    }
}

/// Whether the connection `(o, i)` stands after the calls `calls`: the last
/// of them that connects or disconnects it connects it.
pub open spec fn connected_after<V, S, P>(calls: Seq<GraphCall<V, S, P>>, o: OutputId, i: InputId) -> bool
    decreases calls.len(),
{
    if calls.len() == 0 {
        false
    } else {
        match event_of_call(calls.last()) {
            Some(GraphEvent::Connect(o2, i2)) => if o2 == o && i2 == i {
                true
            } else {
                connected_after(calls.drop_last(), o, i)
            },
            Some(GraphEvent::Disconnect(o2, i2)) => if o2 == o && i2 == i {
                false
            } else {
                connected_after(calls.drop_last(), o, i)
            },
            _ => connected_after(calls.drop_last(), o, i),
        }
    }
}

/// The events that the calls `calls` recorded as incoming since the last
/// drain among them, in order: one for each node added and each connection
/// made with `connect` or `connect_by_ids`.
pub open spec fn incoming_since_drain<V, S, P>(calls: Seq<GraphCall<V, S, P>>) -> Seq<GraphEvent<V, S, P>>
    decreases calls.len(),
{
    if calls.len() == 0 {
        Seq::empty()
    } else {
        match calls.last() {
            GraphCall::AddNode(e) => incoming_since_drain(calls.drop_last()).push(e),
            GraphCall::Connect(e) => incoming_since_drain(calls.drop_last()).push(e),
            GraphCall::Drain => Seq::empty(),
            _ => incoming_since_drain(calls.drop_last()),
        }
    }
}

/// Whether the connection list `edges` holds the connection `(o, i)`;
/// returns its position if so.
fn find_edge(edges: &Vec<(OutputId, InputId)>, o: OutputId, i: InputId) -> (r: Option<usize>)
    ensures
        r is None ==> !edges@.contains((o, i)),
        r matches Some(k) ==> k < edges@.len() && edges@[k as int] == (o, i) && forall|j: int|
            0 <= j < k ==> edges@[j] != (o, i),
{
    let mut k: usize = 0;
    while k < edges.len()
        invariant
            k <= edges.len(),
            forall|j: int| 0 <= j < k ==> edges@[j] != (o, i),
        decreases edges.len() - k,
    {
        let e = edges[k];
        if e.0 == o && e.1 == i {
            return Some(k);
        }
        k = k + 1;
    }
    None
}

impl<V: Copy, S: Copy, P: Copy> Graph<V, S, P> {
    /// An empty graph whose id counters start at 0.
    pub fn new() -> (r: Self)
        ensures
            r.node_map() == Map::<u32, NodeView<V, S, P>>::empty(),
            r.edge_list() == Seq::<(OutputId, InputId)>::empty(),
            r.incoming_log() == Seq::<GraphEvent<V, S, P>>::empty(),
            r.outgoing_log() == Seq::<GraphEvent<V, S, P>>::empty(),
            r.next_node() == 0,
            r.next_input() == 0,
            r.next_output() == 0,
            r.wf(),
    {
        let r = Graph {
            nodes: HashMap::new(),
            edges: Vec::new(),
            incoming_events: Vec::new(),
            outgoing_events: Vec::new(),
            node_id_generator: IdGenerator::new(),
            input_id_generator: IdGenerator::new(),
            output_id_generator: IdGenerator::new(),
        };
        assert(r.node_map() =~= Map::<u32, NodeView<V, S, P>>::empty());
        r
    }

    /// Hands out the next node id.
    pub fn request_node_id(&mut self) -> (r: NodeId)
        requires
            old(self).next_node() < u32::MAX,
        ensures
            r.0 == old(self).next_node(),
            final(self).next_node() == old(self).next_node() + 1,
            final(self).node_map() == old(self).node_map(),
            final(self).edge_list() == old(self).edge_list(),
            final(self).incoming_log() == old(self).incoming_log(),
            final(self).outgoing_log() == old(self).outgoing_log(),
            final(self).next_input() == old(self).next_input(),
            final(self).next_output() == old(self).next_output(),
            Self::call_step(*old(self), *final(self), GraphCall::RequestNodeId),
    {
        self.node_id_generator.generate()
    }

    /// The node with id `id`, if there is one.
    pub fn get_node(&self, id: NodeId) -> (r: Option<&Node<V, S, P>>)
        ensures
            r is Some <==> self.node_map().contains_key(id.0),
            r matches Some(n) ==> n@ == self.node_map()[id.0],
    {
        self.nodes.get(&id.0)
    }

    /// Applies `event` to the nodes and connections.
    fn apply_event(&mut self, event: &GraphEvent<V, S, P>)
        requires
            old(self).has_room_for(*event),
        ensures
            Self::applies(*old(self), *final(self), *event),
            final(self).incoming_log() == old(self).incoming_log(),
            final(self).outgoing_log() == old(self).outgoing_log(),
    {
        match event {
            GraphEvent::AddNode(node_id, node_data, position) => {
                let input_types = node_data.input_types();
                let mut inputs: Vec<Input> = Vec::new();
                let mut i: usize = 0;
                while i < input_types.len()
                    invariant
                        i <= input_types@.len(),
                        input_types@ == node_data.spec_input_types(),
                        old(self).next_input() + input_types@.len() <= u32::MAX,
                        self.input_id_generator.next() == old(self).next_input() + i,
                        inputs@ == inputs_from(input_types@.take(i as int), old(self).next_input()),
                        self.nodes == old(self).nodes,
                        self.edges == old(self).edges,
                        self.incoming_events == old(self).incoming_events,
                        self.outgoing_events == old(self).outgoing_events,
                        self.node_id_generator == old(self).node_id_generator,
                        self.output_id_generator == old(self).output_id_generator,
                    decreases input_types@.len() - i,
                {
                    let slot = Input(self.input_id_generator.generate(), input_types[i]);
                    inputs.push(slot);
                    i = i + 1;
                    assert(inputs@ =~= inputs_from(input_types@.take(i as int), old(self).next_input()));
                }
                assert(input_types@.take(i as int) =~= input_types@);
                let output_types = node_data.output_types();
                let mut outputs: Vec<Output> = Vec::new();
                let mut i: usize = 0;
                while i < output_types.len()
                    invariant
                        i <= output_types@.len(),
                        output_types@ == node_data.spec_output_types(),
                        old(self).next_output() + output_types@.len() <= u32::MAX,
                        self.output_id_generator.next() == old(self).next_output() + i,
                        outputs@ == outputs_from(output_types@.take(i as int), old(self).next_output()),
                        self.nodes == old(self).nodes,
                        self.edges == old(self).edges,
                        self.incoming_events == old(self).incoming_events,
                        self.outgoing_events == old(self).outgoing_events,
                        self.node_id_generator == old(self).node_id_generator,
                        self.input_id_generator.next() == old(self).next_input() + input_types@.len(),
                    decreases output_types@.len() - i,
                {
                    let slot = Output(self.output_id_generator.generate(), output_types[i]);
                    outputs.push(slot);
                    i = i + 1;
                    assert(outputs@ =~= outputs_from(output_types@.take(i as int), old(self).next_output()));
                }
                assert(output_types@.take(i as int) =~= output_types@);
                let node = Node {
                    id: *node_id,
                    data: *node_data,
                    position: *position,
                    inputs,
                    outputs,
                };
                self.nodes.insert(node_id.0, node);
                assert(self.node_map() =~= old(self).node_map().insert(node_id.0, node@));
            },
            GraphEvent::Update(node_id, node_data, position) => {
                match self.nodes.remove(&node_id.0) {
                    Some(mut node) => {
                        node.data = *node_data;
                        node.position = *position;
                        self.nodes.insert(node_id.0, node);
                        assert(self.node_map() =~= old(self).node_map().insert(
                            node_id.0,
                            NodeView { data: *node_data, position: *position, ..old(self).node_map()[node_id.0] },
                        ));
                    },
                    None => {
                        assert(self.node_map() =~= old(self).node_map());
                    },
                }
            },
            GraphEvent::Connect(output_id, input_id) => {
                if find_edge(&self.edges, *output_id, *input_id).is_none() {
                    self.edges.push((*output_id, *input_id));
                }
            },
            GraphEvent::Disconnect(output_id, input_id) => {
                match find_edge(&self.edges, *output_id, *input_id) {
                    Some(k) => {
                        let ghost before = self.edges@;
                        self.edges.remove(k);
                        proof {
                            lemma_remove_value_at(before, (*output_id, *input_id), k as int);
                        }
                    },
                    None => {
                        proof {
                            lemma_remove_value_absent(self.edges@, (*output_id, *input_id));
                        }
                    },
                }
            },
        }
    }
}

proof fn lemma_remove_value_at<A>(s: Seq<A>, a: A, k: int)
    requires
        0 <= k < s.len(),
        s[k] == a,
        forall|j: int| 0 <= j < k ==> s[j] != a,
    ensures
        s.remove_value(a) == s.remove(k),
{
    assert(s.index_of_first(a) == Some(k)) by {
        s.index_of_first_ensures(a);
    }
}

proof fn lemma_remove_value_absent<A>(s: Seq<A>, a: A)
    requires
        !s.contains(a),
    ensures
        s.remove_value(a) == s,
{
    s.index_of_first_ensures(a);
}


impl<V: Copy, S: Copy, P: Copy> Graph<V, S, P> {
    fn add_incoming_and_apply_event(&mut self, event: GraphEvent<V, S, P>)
        requires
            old(self).has_room_for(event),
        ensures
            Self::applies(*old(self), *final(self), event),
            final(self).incoming_log() == old(self).incoming_log().push(event),
            final(self).outgoing_log() == old(self).outgoing_log(),
            old(self).wf() ==> final(self).wf(),
    {
        self.apply_event(&event);
        self.incoming_events.push(event);
        proof {
            if old(self).wf() {
                lemma_applies_keeps_wf(*old(self), *self, event);
            }
        }
    }

    /// Applies an event made here and records it as outgoing.
    pub fn add_outgoing_and_apply_event(&mut self, event: GraphEvent<V, S, P>)
        requires
            old(self).has_room_for(event),
        ensures
            Self::applies(*old(self), *final(self), event),
            final(self).outgoing_log() == old(self).outgoing_log().push(event),
            final(self).incoming_log() == old(self).incoming_log(),
            old(self).wf() ==> final(self).wf(),
            Self::call_step(*old(self), *final(self), GraphCall::Outgoing(event)),
    {
        self.apply_event(&event);
        self.outgoing_events.push(event);
        proof {
            if old(self).wf() {
                lemma_applies_keeps_wf(*old(self), *self, event);
            }
        }
    }

    /// Adds a node with a fresh id at `position`; the event that adds it is
    /// recorded as incoming. Returns the id.
    pub fn add_node(&mut self, node: NodeData<V, S>, position: P) -> (r: NodeId)
        requires
            old(self).next_node() < u32::MAX,
            old(self).next_input() + node.spec_input_types().len() <= u32::MAX,
            old(self).next_output() + node.spec_output_types().len() <= u32::MAX,
        ensures
            r.0 == old(self).next_node(),
            final(self).next_node() == old(self).next_node() + 1,
            final(self).node_map() == old(self).node_map().insert(
                r.0,
                NodeView {
                    id: r,
                    data: node,
                    position,
                    inputs: inputs_from(node.spec_input_types(), old(self).next_input()),
                    outputs: outputs_from(node.spec_output_types(), old(self).next_output()),
                },
            ),
            final(self).next_input() == old(self).next_input() + node.spec_input_types().len(),
            final(self).next_output() == old(self).next_output() + node.spec_output_types().len(),
            final(self).edge_list() == old(self).edge_list(),
            final(self).incoming_log() == old(self).incoming_log().push(GraphEvent::AddNode(r, node, position)),
            final(self).outgoing_log() == old(self).outgoing_log(),
            old(self).wf() ==> final(self).wf(),
            Self::call_step(*old(self), *final(self), GraphCall::AddNode(GraphEvent::AddNode(r, node, position))),
    {
        let node_id = self.request_node_id();
        self.add_incoming_and_apply_event(GraphEvent::AddNode(node_id, node, position));
        node_id
    }

    /// Connects an output slot to an input slot; the event is recorded as
    /// incoming.
    pub fn connect(&mut self, output_id: OutputId, input_id: InputId)
        ensures
            Self::applies(*old(self), *final(self), GraphEvent::Connect(output_id, input_id)),
            final(self).incoming_log() == old(self).incoming_log().push(GraphEvent::Connect(output_id, input_id)),
            final(self).outgoing_log() == old(self).outgoing_log(),
            old(self).wf() ==> final(self).wf(),
            Self::call_step(*old(self), *final(self), GraphCall::Connect(GraphEvent::Connect(output_id, input_id))),
    {
        self.add_incoming_and_apply_event(GraphEvent::Connect(output_id, input_id))
    }

    /// Connects output slot `output.1` of node `output.0` to input slot
    /// `input.1` of node `input.0`.
    pub fn connect_by_ids(&mut self, output: (NodeId, u8), input: (NodeId, u8))
        requires
            old(self).node_map().contains_key(output.0.0),
            output.1 < old(self).node_map()[output.0.0].outputs.len(),
            old(self).node_map().contains_key(input.0.0),
            input.1 < old(self).node_map()[input.0.0].inputs.len(),
        ensures
            ({
                let e = GraphEvent::<V, S, P>::Connect(
                    old(self).node_map()[output.0.0].outputs[output.1 as int].0,
                    old(self).node_map()[input.0.0].inputs[input.1 as int].0,
                );
                &&& Self::applies(*old(self), *final(self), e)
                &&& final(self).incoming_log() == old(self).incoming_log().push(e)
                &&& final(self).outgoing_log() == old(self).outgoing_log()
                &&& Self::call_step(*old(self), *final(self), GraphCall::Connect(e))
            }),
            old(self).wf() ==> final(self).wf(),
    {
        let output_id = self.get_node(output.0).unwrap().outputs[output.1 as usize].0;
        let input_id = self.get_node(input.0).unwrap().inputs[input.1 as usize].0;
        self.connect(output_id, input_id);
    }

    /// Hands out the events that arrived and forgets them.
    pub fn drain_arrived_incoming_events(&mut self) -> (r: Vec<GraphEvent<V, S, P>>)
        ensures
            r@ == old(self).incoming_log(),
            final(self).incoming_log() == Seq::<GraphEvent<V, S, P>>::empty(),
            final(self).node_map() == old(self).node_map(),
            final(self).edge_list() == old(self).edge_list(),
            final(self).outgoing_log() == old(self).outgoing_log(),
            final(self).next_node() == old(self).next_node(),
            final(self).next_input() == old(self).next_input(),
            final(self).next_output() == old(self).next_output(),
            Self::call_step(*old(self), *final(self), GraphCall::Drain),
    {
        let mut incoming_events: Vec<GraphEvent<V, S, P>> = Vec::new();
        std::mem::swap(&mut incoming_events, &mut self.incoming_events);
        incoming_events
    }

    /// The nodes, by the integer of their id.
    pub fn nodes(&self) -> (r: &HashMap<u32, Node<V, S, P>>)
        ensures
            r@.map_values(|n: Node<V, S, P>| n@) == self.node_map(),
    {
        &self.nodes
    }

    /// The connections, each listed once.
    pub fn edges(&self) -> (r: &Vec<(OutputId, InputId)>)
        ensures
            r@ == self.edge_list(),
    {
        &self.edges
    }

    /// The events that arrived and have not been drained yet.
    pub fn incoming_events(&self) -> (r: &[GraphEvent<V, S, P>])
        ensures
            r@ == self.incoming_log(),
    {
        self.incoming_events.as_slice()
    }
}


/// Applying an event to a well-formed graph gives a well-formed graph: every
/// node stays under its own id, no two slots share an id, and no connection
/// is listed twice.
pub proof fn lemma_applies_keeps_wf<V: Copy, S: Copy, P: Copy>(
    old: Graph<V, S, P>,
    new: Graph<V, S, P>,
    event: GraphEvent<V, S, P>,
)
    requires
        old.wf(),
        old.has_room_for(event),
        Graph::changes(old, new, event),
    ensures
        new.wf(),
{
    let om = old.node_map();
    let nm = new.node_map();
    match event {
        GraphEvent::AddNode(id, data, position) => {
            let ni = inputs_from(data.spec_input_types(), old.next_input());
            let no = outputs_from(data.spec_output_types(), old.next_output());
            assert forall|k: u32, j: int|
                nm.contains_key(k) && 0 <= j < nm[k].inputs.len() implies (#[trigger] nm[k].inputs[j]).0.0
                < new.next_input() by {
                if k != id.0 {
                    assert(om[k].inputs[j].0.0 < old.next_input());
                }
            }
            assert forall|k: u32, j: int|
                nm.contains_key(k) && 0 <= j < nm[k].outputs.len() implies (#[trigger] nm[k].outputs[j]).0.0
                < new.next_output() by {
                if k != id.0 {
                    assert(om[k].outputs[j].0.0 < old.next_output());
                }
            }
            assert forall|k1: u32, j1: int, k2: u32, j2: int|
                nm.contains_key(k1) && nm.contains_key(k2) && 0 <= j1 < nm[k1].inputs.len() && 0 <= j2
                    < nm[k2].inputs.len() && (k1 != k2 || j1 != j2) implies (#[trigger] nm[k1].inputs[j1]).0
                != (#[trigger] nm[k2].inputs[j2]).0 by {
                if k1 == id.0 && k2 != id.0 {
                    assert(om[k2].inputs[j2].0.0 < old.next_input());
                } else if k1 != id.0 && k2 == id.0 {
                    assert(om[k1].inputs[j1].0.0 < old.next_input());
                } else if k1 != id.0 && k2 != id.0 {
                    assert(om[k1].inputs[j1].0 != om[k2].inputs[j2].0);
                }
            }
            assert forall|k1: u32, j1: int, k2: u32, j2: int|
                nm.contains_key(k1) && nm.contains_key(k2) && 0 <= j1 < nm[k1].outputs.len() && 0 <= j2
                    < nm[k2].outputs.len() && (k1 != k2 || j1 != j2) implies (#[trigger] nm[k1].outputs[j1]).0
                != (#[trigger] nm[k2].outputs[j2]).0 by {
                if k1 == id.0 && k2 != id.0 {
                    assert(om[k2].outputs[j2].0.0 < old.next_output());
                } else if k1 != id.0 && k2 == id.0 {
                    assert(om[k1].outputs[j1].0.0 < old.next_output());
                } else if k1 != id.0 && k2 != id.0 {
                    assert(om[k1].outputs[j1].0 != om[k2].outputs[j2].0);
                }
            }
        },
        GraphEvent::Update(id, data, position) => {
            assert forall|k: u32, j: int|
                nm.contains_key(k) && 0 <= j < nm[k].inputs.len() implies (#[trigger] nm[k].inputs[j]).0.0
                < new.next_input() by {
                assert(om[k].inputs[j].0.0 < old.next_input());
            }
            assert forall|k: u32, j: int|
                nm.contains_key(k) && 0 <= j < nm[k].outputs.len() implies (#[trigger] nm[k].outputs[j]).0.0
                < new.next_output() by {
                assert(om[k].outputs[j].0.0 < old.next_output());
            }
            assert forall|k1: u32, j1: int, k2: u32, j2: int|
                nm.contains_key(k1) && nm.contains_key(k2) && 0 <= j1 < nm[k1].inputs.len() && 0 <= j2
                    < nm[k2].inputs.len() && (k1 != k2 || j1 != j2) implies (#[trigger] nm[k1].inputs[j1]).0
                != (#[trigger] nm[k2].inputs[j2]).0 by {
                assert(om[k1].inputs[j1].0 != om[k2].inputs[j2].0);
            }
            assert forall|k1: u32, j1: int, k2: u32, j2: int|
                nm.contains_key(k1) && nm.contains_key(k2) && 0 <= j1 < nm[k1].outputs.len() && 0 <= j2
                    < nm[k2].outputs.len() && (k1 != k2 || j1 != j2) implies (#[trigger] nm[k1].outputs[j1]).0
                != (#[trigger] nm[k2].outputs[j2]).0 by {
                assert(om[k1].outputs[j1].0 != om[k2].outputs[j2].0);
            }
        },
        GraphEvent::Connect(o, i) => {
            if !old.edge_list().contains((o, i)) {
                let e = old.edge_list();
                assert forall|a: int, b: int| 0 <= a < b < e.push((o, i)).len() implies e.push((o, i))[a]
                    != e.push((o, i))[b] by {
                    if b == e.len() {
                        assert(e[a] == e.push((o, i))[a]);
                    }
                }
            }
        },
        GraphEvent::Disconnect(o, i) => {
            let e = old.edge_list();
            e.index_of_first_ensures((o, i));
            match e.index_of_first((o, i)) {
                Some(k) => {
                    assert forall|a: int, b: int| 0 <= a < b < e.remove(k).len() implies e.remove(k)[a]
                        != e.remove(k)[b] by {
                        let a2 = if a < k { a } else { a + 1 };
                        let b2 = if b < k { b } else { b + 1 };
                        assert(e.remove(k)[a] == e[a2]);
                        assert(e.remove(k)[b] == e[b2]);
                    }
                },
                None => {},
            }
        },
    }
}


/// Disconnecting a connection that a connect just made, where there was none
/// before, gives back the connection list as it was.
pub proof fn lemma_disconnect_undoes_connect<V: Copy, S: Copy, P: Copy>(
    g0: Graph<V, S, P>,
    g1: Graph<V, S, P>,
    g2: Graph<V, S, P>,
    o: OutputId,
    i: InputId,
)
    requires
        !g0.edge_list().contains((o, i)),
        Graph::applies(g0, g1, GraphEvent::Connect(o, i)),
        Graph::applies(g1, g2, GraphEvent::Disconnect(o, i)),
    ensures
        g2.edge_list() == g0.edge_list(),
        g2.node_map() == g0.node_map(),
{
    let e = g0.edge_list();
    let e1 = e.push((o, i));
    assert(e1[e.len() as int] == (o, i));
    assert forall|j: int| 0 <= j < e.len() implies e1[j] != (o, i) by {
        assert(e1[j] == e[j]);
    }
    lemma_remove_value_at(e1, (o, i), e.len() as int);
    assert(e1.remove(e.len() as int) =~= e);
}


/// Making a connection that is already made changes nothing.
pub proof fn lemma_connect_idempotent<V: Copy, S: Copy, P: Copy>(
    g0: Graph<V, S, P>,
    g1: Graph<V, S, P>,
    g2: Graph<V, S, P>,
    o: OutputId,
    i: InputId,
)
    requires
        Graph::applies(g0, g1, GraphEvent::Connect(o, i)),
        Graph::applies(g1, g2, GraphEvent::Connect(o, i)),
    ensures
        g2.edge_list() == g1.edge_list(),
        g1.edge_list().contains((o, i)),
{
    if !g0.edge_list().contains((o, i)) {
        assert(g0.edge_list().push((o, i))[g0.edge_list().len() as int] == (o, i));
    }
}

proof fn lemma_remove_value_no_dup<A>(s: Seq<A>, a: A)
    requires
        s.no_duplicates(),
    ensures
        s.remove_value(a).no_duplicates(),
        forall|b: A| #[trigger] s.remove_value(a).contains(b) <==> s.contains(b) && b != a,
{
    s.index_of_first_ensures(a);
    match s.index_of_first(a) {
        Some(k) => {
            let r = s.remove(k);
            assert forall|x: int, y: int| 0 <= x < y < r.len() implies r[x] != r[y] by {
                let x2 = if x < k { x } else { x + 1 };
                let y2 = if y < k { y } else { y + 1 };
                assert(r[x] == s[x2]);
                assert(r[y] == s[y2]);
            }
            assert forall|b: A| #[trigger] r.contains(b) <==> s.contains(b) && b != a by {
                if r.contains(b) {
                    let x = choose|x: int| 0 <= x < r.len() && r[x] == b;
                    let x2 = if x < k { x } else { x + 1 };
                    assert(r[x] == s[x2]);
                    assert(x2 != k);
                }
                if s.contains(b) && b != a {
                    let x = choose|x: int| 0 <= x < s.len() && s[x] == b;
                    assert(x != k);
                    let x2 = if x < k { x } else { x - 1 };
                    assert(r[x2] == s[x]);
                }
            }
        },
        None => {},
    }
}

proof fn lemma_push_absent_no_dup<A>(s: Seq<A>, a: A)
    requires
        s.no_duplicates(),
        !s.contains(a),
    ensures
        s.push(a).no_duplicates(),
{
    assert forall|x: int, y: int| 0 <= x < y < s.push(a).len() implies s.push(a)[x] != s.push(a)[y] by {
        if y == s.len() {
            assert(s.push(a)[x] == s[x]);
        }
    }
}

proof fn lemma_wf_at<V: Copy, S: Copy, P: Copy>(gs: Seq<Graph<V, S, P>>, calls: Seq<GraphCall<V, S, P>>, n: int)
    requires
        Graph::built_by(gs, calls),
        gs[0].node_map() == Map::<u32, NodeView<V, S, P>>::empty(),
        gs[0].edge_list() == Seq::<(OutputId, InputId)>::empty(),
        0 <= n < gs.len(),
    ensures
        gs[n].wf(),
    decreases n,
{
    if n > 0 {
        lemma_wf_at(gs, calls, n - 1);
        let (old, new) = (gs[n - 1], gs[n]);
        assert(Graph::call_step(old, new, calls[n - 1]));
        match event_of_call(calls[n - 1]) {
            Some(e) => {
                assert(Graph::changes(old, new, e));
                lemma_applies_keeps_wf(old, new, e);
            },
            None => {},
        }
    }
}

/// A graph that the public calls build from an empty one is well-formed
/// after every call: every node stays under its own id, no two input slots
/// and no two output slots share an id, and no connection is listed twice.
pub proof fn lemma_built_graph_is_wf<V: Copy, S: Copy, P: Copy>(
    gs: Seq<Graph<V, S, P>>,
    calls: Seq<GraphCall<V, S, P>>,
)
    requires
        Graph::built_by(gs, calls),
        gs[0].node_map() == Map::<u32, NodeView<V, S, P>>::empty(),
        gs[0].edge_list() == Seq::<(OutputId, InputId)>::empty(),
    ensures
        forall|k: int| 0 <= k < gs.len() ==> #[trigger] gs[k].wf(),
{
    assert forall|k: int| 0 <= k < gs.len() implies #[trigger] gs[k].wf() by {
        lemma_wf_at(gs, calls, k);
    }
}

proof fn lemma_edges_at<V: Copy, S: Copy, P: Copy>(gs: Seq<Graph<V, S, P>>, calls: Seq<GraphCall<V, S, P>>, n: int)
    requires
        Graph::built_by(gs, calls),
        gs[0].edge_list() == Seq::<(OutputId, InputId)>::empty(),
        0 <= n < gs.len(),
    ensures
        gs[n].edge_list().no_duplicates(),
        forall|o: OutputId, i: InputId|
            #[trigger] gs[n].edge_list().contains((o, i)) <==> connected_after(calls.take(n), o, i),
    decreases n,
{
    if n == 0 {
        assert(calls.take(0).len() == 0);
    } else {
        lemma_edges_at(gs, calls, n - 1);
        let (old, new) = (gs[n - 1], gs[n]);
        let c = calls[n - 1];
        assert(Graph::call_step(old, new, c));
        let t = calls.take(n);
        assert(t.last() == c);
        assert(t.drop_last() =~= calls.take(n - 1));
        let oe = old.edge_list();
        match event_of_call(c) {
            Some(GraphEvent::Connect(o2, i2)) => {
                assert(Graph::changes(old, new, GraphEvent::Connect(o2, i2)));
                if !oe.contains((o2, i2)) {
                    lemma_push_absent_no_dup(oe, (o2, i2));
                }
                assert forall|o: OutputId, i: InputId|
                    #[trigger] new.edge_list().contains((o, i)) <==> connected_after(t, o, i) by {
                    if o == o2 && i == i2 {
                        if !oe.contains((o2, i2)) {
                            assert(oe.push((o2, i2))[oe.len() as int] == (o2, i2));
                        }
                    } else {
                        if !oe.contains((o2, i2)) {
                            assert(oe.push((o2, i2)).contains((o, i)) ==> oe.contains((o, i))) by {
                                if oe.push((o2, i2)).contains((o, i)) {
                                    let x = choose|x: int|
                                        0 <= x < oe.push((o2, i2)).len() && oe.push((o2, i2))[x] == (o, i);
                                    assert(x < oe.len());
                                    assert(oe[x] == (o, i));
                                }
                            }
                            assert(oe.contains((o, i)) ==> oe.push((o2, i2)).contains((o, i))) by {
                                if oe.contains((o, i)) {
                                    let x = choose|x: int| 0 <= x < oe.len() && oe[x] == (o, i);
                                    assert(oe.push((o2, i2))[x] == (o, i));
                                }
                            }
                        }
                    }
                }
            },
            Some(GraphEvent::Disconnect(o2, i2)) => {
                assert(Graph::changes(old, new, GraphEvent::Disconnect(o2, i2)));
                lemma_remove_value_no_dup(oe, (o2, i2));
                assert forall|o: OutputId, i: InputId|
                    #[trigger] new.edge_list().contains((o, i)) <==> connected_after(t, o, i) by {
                    assert(oe.remove_value((o2, i2)).contains((o, i)) <==> oe.contains((o, i)) && (o, i) != (o2, i2));
                }
            },
            Some(e) => {
                assert(Graph::changes(old, new, e));
                assert forall|o: OutputId, i: InputId|
                    #[trigger] new.edge_list().contains((o, i)) <==> connected_after(t, o, i) by {
                    assert(new.edge_list() == oe);
                }
            },
            None => {
                assert forall|o: OutputId, i: InputId|
                    #[trigger] new.edge_list().contains((o, i)) <==> connected_after(t, o, i) by {
                    assert(new.edge_list() == oe);
                }
            },
        }
    }
}

proof fn lemma_connected_after_iff<V, S, P>(calls: Seq<GraphCall<V, S, P>>, o: OutputId, i: InputId)
    ensures
        connected_after(calls, o, i) <==> exists|k: int|
            0 <= k < calls.len() && event_of_call(#[trigger] calls[k]) == Some(GraphEvent::<V, S, P>::Connect(o, i))
                && forall|j: int|
                k < j < calls.len() ==> event_of_call(#[trigger] calls[j]) != Some(
                    GraphEvent::<V, S, P>::Disconnect(o, i),
                ),
    decreases calls.len(),
{
    if calls.len() > 0 {
        let rest = calls.drop_last();
        let n = calls.len() - 1;
        lemma_connected_after_iff(rest, o, i);
        let conn = Some(GraphEvent::<V, S, P>::Connect(o, i));
        let disc = Some(GraphEvent::<V, S, P>::Disconnect(o, i));
        let last = event_of_call(calls[n]);
        assert(calls.last() == calls[n]);
        if last == conn {
            assert(event_of_call(calls[n]) == conn);
        } else if last == disc {
            if exists|k: int|
                0 <= k < calls.len() && event_of_call(#[trigger] calls[k]) == conn && forall|j: int|
                    k < j < calls.len() ==> event_of_call(#[trigger] calls[j]) != disc {
                let k = choose|k: int|
                    0 <= k < calls.len() && event_of_call(#[trigger] calls[k]) == conn && forall|j: int|
                        k < j < calls.len() ==> event_of_call(#[trigger] calls[j]) != disc;
                assert(k != n);
                assert(event_of_call(calls[n]) != disc);
            }
        } else {
            if connected_after(rest, o, i) {
                let k = choose|k: int|
                    0 <= k < rest.len() && event_of_call(#[trigger] rest[k]) == conn && forall|j: int|
                        k < j < rest.len() ==> event_of_call(#[trigger] rest[j]) != disc;
                assert(rest[k] == calls[k]);
                assert forall|j: int| k < j < calls.len() implies event_of_call(#[trigger] calls[j]) != disc by {
                    if j < n {
                        assert(rest[j] == calls[j]);
                    }
                }
            }
            if exists|k: int|
                0 <= k < calls.len() && event_of_call(#[trigger] calls[k]) == conn && forall|j: int|
                    k < j < calls.len() ==> event_of_call(#[trigger] calls[j]) != disc {
                let k = choose|k: int|
                    0 <= k < calls.len() && event_of_call(#[trigger] calls[k]) == conn && forall|j: int|
                        k < j < calls.len() ==> event_of_call(#[trigger] calls[j]) != disc;
                assert(k != n);
                assert(rest[k] == calls[k]);
                assert forall|j: int| k < j < rest.len() implies event_of_call(#[trigger] rest[j]) != disc by {
                    assert(rest[j] == calls[j]);
                }
            }
        }
    }
}

/// The connections of a graph that the public calls build from one with no
/// connections are those that some call connected and no later call
/// disconnected, each listed once: connecting the same slots twice gives one
/// connection.
pub proof fn lemma_built_graph_edges<V: Copy, S: Copy, P: Copy>(
    gs: Seq<Graph<V, S, P>>,
    calls: Seq<GraphCall<V, S, P>>,
)
    requires
        Graph::built_by(gs, calls),
        gs[0].edge_list() == Seq::<(OutputId, InputId)>::empty(),
    ensures
        gs.last().edge_list().no_duplicates(),
        forall|o: OutputId, i: InputId|
            #[trigger] gs.last().edge_list().contains((o, i)) <==> exists|k: int|
                0 <= k < calls.len() && event_of_call(#[trigger] calls[k]) == Some(GraphEvent::<V, S, P>::Connect(o, i))
                    && forall|j: int|
                    k < j < calls.len() ==> event_of_call(#[trigger] calls[j]) != Some(
                        GraphEvent::<V, S, P>::Disconnect(o, i),
                    ),
{
    lemma_edges_at(gs, calls, calls.len() as int);
    assert(calls.take(calls.len() as int) =~= calls);
    assert forall|o: OutputId, i: InputId|
        #[trigger] gs.last().edge_list().contains((o, i)) <==> exists|k: int|
            0 <= k < calls.len() && event_of_call(#[trigger] calls[k]) == Some(GraphEvent::<V, S, P>::Connect(o, i))
                && forall|j: int|
                k < j < calls.len() ==> event_of_call(#[trigger] calls[j]) != Some(
                    GraphEvent::<V, S, P>::Disconnect(o, i),
                ) by {
        lemma_connected_after_iff(calls, o, i);
    }
}

proof fn lemma_incoming_at<V: Copy, S: Copy, P: Copy>(
    gs: Seq<Graph<V, S, P>>,
    calls: Seq<GraphCall<V, S, P>>,
    n: int,
)
    requires
        Graph::built_by(gs, calls),
        gs[0].incoming_log() == Seq::<GraphEvent<V, S, P>>::empty(),
        0 <= n < gs.len(),
    ensures
        gs[n].incoming_log() == incoming_since_drain(calls.take(n)),
    decreases n,
{
    if n == 0 {
        assert(calls.take(0).len() == 0);
    } else {
        lemma_incoming_at(gs, calls, n - 1);
        assert(Graph::call_step(gs[n - 1], gs[n], calls[n - 1]));
        assert(calls.take(n).last() == calls[n - 1]);
        assert(calls.take(n).drop_last() =~= calls.take(n - 1));
    }
}

/// The incoming log of a graph that the public calls build from one with an
/// empty log lists, in call order, the event of each `add_node`, `connect`
/// and `connect_by_ids` since the last drain (or since the start); events
/// applied as outgoing and node ids handed out add nothing to it.
pub proof fn lemma_built_graph_incoming<V: Copy, S: Copy, P: Copy>(
    gs: Seq<Graph<V, S, P>>,
    calls: Seq<GraphCall<V, S, P>>,
)
    requires
        Graph::built_by(gs, calls),
        gs[0].incoming_log() == Seq::<GraphEvent<V, S, P>>::empty(),
    ensures
        gs.last().incoming_log() == incoming_since_drain(calls),
{
    lemma_incoming_at(gs, calls, calls.len() as int);
    assert(calls.take(calls.len() as int) =~= calls);
}

/// A sphere has no input slots and one signed-distance output; an output
/// node has one signed-distance input and no outputs; a union has two
/// signed-distance inputs and one signed-distance output.
pub proof fn lemma_slot_types<V: Copy, S: Copy>(data: NodeData<V, S>)
    ensures
        forall|k: int|
            0 <= k < data.spec_input_types().len() ==> #[trigger] data.spec_input_types()[k]
                == DataType::SignedDistance,
        forall|k: int|
            0 <= k < data.spec_output_types().len() ==> #[trigger] data.spec_output_types()[k]
                == DataType::SignedDistance,
        data.spec_input_types().len() == (match data {
            NodeData::Sphere { .. } => 0int,
            NodeData::Output => 1int,
            NodeData::Union => 2int,
        }),
        data.spec_output_types().len() == (match data {
            NodeData::Output => 0int,
            _ => 1int,
        }),
{
}

/// A node added by an event gets, in order, one slot per slot type of its
/// data, of that type, with fresh ids counted up from the next id handed
/// out, which moves past them.
pub proof fn lemma_added_node_slots<V: Copy, S: Copy, P: Copy>(
    old: Graph<V, S, P>,
    new: Graph<V, S, P>,
    id: NodeId,
    data: NodeData<V, S>,
    position: P,
)
    requires
        Graph::changes(old, new, GraphEvent::AddNode(id, data, position)),
    ensures
        new.node_map().contains_key(id.0),
        new.node_map()[id.0].id == id,
        new.node_map()[id.0].data == data,
        new.node_map()[id.0].position == position,
        new.node_map()[id.0].inputs.len() == data.spec_input_types().len(),
        new.node_map()[id.0].outputs.len() == data.spec_output_types().len(),
        forall|k: int|
            0 <= k < data.spec_input_types().len() ==> {
                let slot = #[trigger] new.node_map()[id.0].inputs[k];
                &&& slot.1 == data.spec_input_types()[k]
                &&& slot.0.0 == old.next_input() + k
            },
        forall|k: int|
            0 <= k < data.spec_output_types().len() ==> {
                let slot = #[trigger] new.node_map()[id.0].outputs[k];
                &&& slot.1 == data.spec_output_types()[k]
                &&& slot.0.0 == old.next_output() + k
            },
        new.next_input() == old.next_input() + data.spec_input_types().len(),
        new.next_output() == old.next_output() + data.spec_output_types().len(),
{
}

} // verus!
