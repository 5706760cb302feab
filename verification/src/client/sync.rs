//! Keeping the node editor and the canonical graph in step: what the editor
//! must do to show a canonical event, and the canonical event that a
//! response of the editor makes.
//!
//! Editor nodes and slots are given by their keys; what the editor holds of
//! a node is handed in as a [`UiNode`].

use vstd::prelude::*;

use crate::canonical::{self, GraphEvent};
use crate::client::{
    bimap_pairs, link_canonical_and_ui_io, min_len, one_to_one, pairs_with, pairs_with_all, CastError, DataType,
    GraphState, NodeKind, NodeTemplate, Value,
};
use crate::id::NodeId;

verus! {

/// Whether some canonical id is paired with the editor key `r`.
pub open spec fn has_right(pairs: Set<(u32, u64)>, r: u64) -> bool {
    exists|l: u32| #[trigger] pairs.contains((l, r))
}

/// Whether some editor key is paired with the canonical id `l`.
pub open spec fn has_left(pairs: Set<(u32, u64)>, l: u32) -> bool {
    exists|r: u64| #[trigger] pairs.contains((l, r))
}

/// The canonical id paired with the editor key `r`.
pub open spec fn left_of(pairs: Set<(u32, u64)>, r: u64) -> u32 {
    choose|l: u32| #[trigger] pairs.contains((l, r))
}

/// The editor key paired with the canonical id `l`.
pub open spec fn right_of(pairs: Set<(u32, u64)>, l: u32) -> u64 {
    choose|r: u64| #[trigger] pairs.contains((l, r))
}

/// The values that the editor shows for canonical node data, one per
/// input slot that holds a value: a sphere's centre and radius; nothing for
/// the other kinds.
pub open spec fn ui_values<V, S>(node: canonical::NodeData<V, S>) -> Seq<Value<V, S>> {
    match node {
        canonical::NodeData::Sphere { center, radius } => seq![
            Value::Vec3 { value: center },
            Value::Scalar { value: radius },
        ],
        _ => seq![],
    }
}

/// The values that the editor shows for `node_data`; see [`ui_values`].
pub fn canonical_data_to_ui_node<V: Copy, S: Copy>(node_data: &canonical::NodeData<V, S>) -> (r: Vec<Value<V, S>>)
    ensures
        r@ == ui_values(*node_data),
{
    match node_data {
        canonical::NodeData::Sphere { center, radius } => {
            let r = vec![Value::Vec3 { value: *center }, Value::Scalar { value: *radius }];
            assert(r@ =~= ui_values(*node_data));
            r
        },
        canonical::NodeData::Output => Vec::new(),
        canonical::NodeData::Union => Vec::new(),
    }
}

/// What the editor holds of a node: its kind and the values of its input
/// slots, in order.
pub struct UiNode<V, S> {
    pub kind: NodeKind,
    pub inputs: Vec<Value<V, S>>,
}

/// The canonical data that an editor node of kind `kind` with input values
/// `inputs` stands for: a sphere reads its centre from the first value and
/// its radius from the second, and fails on the first that has the wrong
/// type.
pub open spec fn canonical_data_of<V, S>(kind: NodeKind, inputs: Seq<Value<V, S>>) -> Result<
    canonical::NodeData<V, S>,
    CastError<V, S>,
> {
    match kind {
        NodeKind::Sphere => match inputs[0] {
            Value::Vec3 { value: center } => match inputs[1] {
                Value::Scalar { value: radius } => Ok(canonical::NodeData::Sphere { center, radius }),
                other => Err(CastError { from: other, to: DataType::Scalar }),
            },
            other => Err(CastError { from: other, to: DataType::Vec3 }),
        },
        NodeKind::Output => Ok(canonical::NodeData::Output),
        NodeKind::Union => Ok(canonical::NodeData::Union),
    }
}

/// The canonical data an editor node stands for; see [`canonical_data_of`].
pub fn ui_node_to_canonical_data<V: Copy, S: Copy>(ui_node: &UiNode<V, S>) -> (r: Result<
    canonical::NodeData<V, S>,
    CastError<V, S>,
>)
    requires
        ui_node.kind is Sphere ==> ui_node.inputs@.len() >= 2,
    ensures
        r == canonical_data_of(ui_node.kind, ui_node.inputs@),
{
    match ui_node.kind {
        NodeKind::Sphere => {
            let center = match ui_node.inputs[0].try_to_vec3() {
                Ok(c) => c,
                Err(e) => return Err(e),
            };
            let radius = match ui_node.inputs[1].try_to_scalar() {
                Ok(r) => r,
                Err(e) => return Err(e),
            };
            Ok(canonical::NodeData::Sphere { center, radius })
        },
        NodeKind::Output => Ok(canonical::NodeData::Output),
        NodeKind::Union => Ok(canonical::NodeData::Union),
    }
}

/// Why the canonical data of an editor node cannot be read.
#[derive(Clone, Copy, Debug, PartialEq)]
pub enum ExtractError<V, S> {
    /// The editor has no such node.
    NoUiNode,
    /// No canonical node is paired with the editor node.
    NoCanonicalId,
    /// An input value has the wrong type.
    InvalidCast(CastError<V, S>),
    /// The editor has no position for the node.
    NoPosition,
}

/// What reading the editor node with key `ui` gives, where the editor holds
/// `node` for it at `position`: the canonical id paired with it, its
/// canonical data and its position; or the first thing that is missing or
/// wrong, in that order.
pub open spec fn extracted<V, S, P>(
    node_pairs: Set<(u32, u64)>,
    ui: u64,
    node: Option<UiNode<V, S>>,
    position: Option<P>,
) -> Result<(NodeId, canonical::NodeData<V, S>, P), ExtractError<V, S>> {
    match node {
        None => Err(ExtractError::NoUiNode),
        Some(n) => if !has_right(node_pairs, ui) {
            Err(ExtractError::NoCanonicalId)
        } else {
            match canonical_data_of(n.kind, n.inputs@) {
                Err(e) => Err(ExtractError::InvalidCast(e)),
                Ok(d) => match position {
                    None => Err(ExtractError::NoPosition),
                    Some(p) => Ok((NodeId(left_of(node_pairs, ui)), d, p)),
                },
            }
        },
    }
}

proof fn lemma_left_of_unique(pairs: Set<(u32, u64)>, x: u32, r: u64)
    requires
        one_to_one(pairs),
        pairs.contains((x, r)),
    ensures
        has_right(pairs, r),
        left_of(pairs, r) == x,
{
    assert(pairs.contains((left_of(pairs, r), r)));
}

proof fn lemma_right_of_unique(pairs: Set<(u32, u64)>, l: u32, x: u64)
    requires
        one_to_one(pairs),
        pairs.contains((l, x)),
    ensures
        has_left(pairs, l),
        right_of(pairs, l) == x,
{
    assert(pairs.contains((l, right_of(pairs, l))));
}

/// Reads the canonical id, data and position of the editor node with key
/// `ui_node_id`; see [`extracted`].
pub fn extract_canonical_data_from_ui_node<V: Copy, S: Copy, P: Copy>(
    state: &GraphState,
    ui_node_id: u64,
    ui_node: Option<&UiNode<V, S>>,
    position: Option<P>,
) -> (r: Result<(NodeId, canonical::NodeData<V, S>, P), ExtractError<V, S>>)
    requires
        state.wf(),
        ui_node matches Some(n) ==> (n.kind is Sphere ==> n.inputs@.len() >= 2),
    ensures
        r == extracted(bimap_pairs(state.node_map), ui_node_id, held(ui_node), position),
{
    let ui_node = match ui_node {
        Some(n) => n,
        None => return Err(ExtractError::NoUiNode),
    };
    let canonical_id = match state.ui_node_id_to_canonical(ui_node_id) {
        Some(id) => id,
        None => return Err(ExtractError::NoCanonicalId),
    };
    proof {
        lemma_left_of_unique(bimap_pairs(state.node_map), canonical_id.0, ui_node_id);
    }
    let node_data = match ui_node_to_canonical_data(ui_node) {
        Ok(d) => d,
        Err(e) => return Err(ExtractError::InvalidCast(e)),
    };
    let position = match position {
        Some(p) => p,
        None => return Err(ExtractError::NoPosition),
    };
    Ok((canonical_id, node_data, position))
}

/// What the node editor reports after a frame. Only the responses listed
/// here reach the canonical graph; the others are `Other`.
#[derive(Clone, Copy, Debug, PartialEq, Eq, Structural)]
pub enum UiResponse {
    /// A connection from editor output `output` to editor input `input` was made.
    ConnectEventEnded { output: u64, input: u64 },
    /// The editor node with this key was made.
    CreatedNode(u64),
    /// The editor node with this key was deleted.
    DeleteNode(u64),
    /// The connection from editor output `output` to editor input `input` was removed.
    DisconnectEvent { output: u64, input: u64 },
    /// The editor node with this key was raised, after it was edited.
    RaiseNode(u64),
    Other,
}

/// The editor node that goes with a response, as the editor holds it.
pub open spec fn held<V, S>(ui_node: Option<&UiNode<V, S>>) -> Option<UiNode<V, S>> {
    match ui_node {
        Some(n) => Some(*n),
        None => None,
    }
}

/// Whether an editor node held as `ui_node` can be read: it is there, a
/// sphere has its two values, and they have the right types.
pub open spec fn readable<V, S>(ui_node: Option<&UiNode<V, S>>) -> bool {
    &&& ui_node is Some
    &&& ui_node->0.kind is Sphere ==> ui_node->0.inputs@.len() >= 2
    &&& canonical_data_of(ui_node->0.kind, ui_node->0.inputs@) is Ok
}

/// The canonical data of a readable editor node.
pub open spec fn data_of<V, S>(ui_node: Option<&UiNode<V, S>>) -> canonical::NodeData<V, S> {
    canonical_data_of(ui_node->0.kind, ui_node->0.inputs@)->Ok_0
}

/// The event that an editor response makes, when a canonical node with id
/// `new_id` is made for a new editor node: a connection or disconnection
/// between the canonical slots paired with the editor slots, a new node, or
/// new data and position for the canonical node paired with a raised editor
/// node; nothing for the other responses.
pub open spec fn event_of<V, S, P>(
    response: UiResponse,
    state: GraphState,
    ui_node: Option<&UiNode<V, S>>,
    position: Option<P>,
    new_id: u32,
) -> Option<GraphEvent<V, S, P>> {
    match response {
        UiResponse::ConnectEventEnded { output, input } => Some(
            GraphEvent::Connect(
                crate::id::OutputId(left_of(bimap_pairs(state.output_map), output)),
                crate::id::InputId(left_of(bimap_pairs(state.input_map), input)),
            ),
        ),
        UiResponse::DisconnectEvent { output, input } => Some(
            GraphEvent::Disconnect(
                crate::id::OutputId(left_of(bimap_pairs(state.output_map), output)),
                crate::id::InputId(left_of(bimap_pairs(state.input_map), input)),
            ),
        ),
        UiResponse::CreatedNode(_) => Some(GraphEvent::AddNode(NodeId(new_id), data_of(ui_node), position->0)),
        UiResponse::RaiseNode(ui) => Some(
            GraphEvent::Update(NodeId(left_of(bimap_pairs(state.node_map), ui)), data_of(ui_node), position->0),
        ),
        _ => None,
    }
}

/// Passes a response of the editor on to the canonical graph: the event it
/// makes (see [`event_of`]) is applied to `graph` and recorded as outgoing.
/// A new editor node first gets the next canonical node id, paired with its
/// key in `state`. `ui_node` and `position` are what the editor holds for
/// the node that the response names.
pub fn sync_ui_to_canonical<V: Copy, S: Copy, P: Copy>(
    response: UiResponse,
    ui_node: Option<&UiNode<V, S>>,
    position: Option<P>,
    state: &mut GraphState,
    graph: &mut canonical::Graph<V, S, P>,
)
    requires
        old(state).wf(),
        !(response is DeleteNode),
        response matches UiResponse::ConnectEventEnded { output, input } ==> has_right(
            bimap_pairs(old(state).output_map),
            output,
        ) && has_right(bimap_pairs(old(state).input_map), input),
        response matches UiResponse::DisconnectEvent { output, input } ==> has_right(
            bimap_pairs(old(state).output_map),
            output,
        ) && has_right(bimap_pairs(old(state).input_map), input),
        response is CreatedNode ==> {
            &&& old(graph).next_node() < u32::MAX
            &&& readable(ui_node)
            &&& position is Some
            &&& old(graph).has_room_for(GraphEvent::AddNode(NodeId(old(graph).next_node()), data_of(ui_node), position->0))
        },
        response matches UiResponse::RaiseNode(ui) ==> {
            &&& has_right(bimap_pairs(old(state).node_map), ui)
            &&& readable(ui_node)
            &&& position is Some
        },
    ensures
        final(state).wf(),
        old(graph).wf() ==> final(graph).wf(),
        final(state).input_map == old(state).input_map,
        final(state).output_map == old(state).output_map,
        match response {
            UiResponse::CreatedNode(ui) => {
                let n = old(graph).next_node();
                let e = GraphEvent::AddNode(NodeId(n), data_of(ui_node), position->0);
                &&& bimap_pairs(final(state).node_map) == pairs_with(bimap_pairs(old(state).node_map), n, ui)
                &&& final(graph).next_node() == n + 1
                &&& canonical::Graph::changes(*old(graph), *final(graph), e)
                &&& final(graph).outgoing_log() == old(graph).outgoing_log().push(e)
                &&& final(graph).incoming_log() == old(graph).incoming_log()
            },
            UiResponse::Other => {
                &&& final(state).node_map == old(state).node_map
                &&& *final(graph) == *old(graph)
            },
            _ => {
                let e = event_of(response, *old(state), ui_node, position, 0)->0;
                &&& final(state).node_map == old(state).node_map
                &&& canonical::Graph::applies(*old(graph), *final(graph), e)
                &&& final(graph).outgoing_log() == old(graph).outgoing_log().push(e)
                &&& final(graph).incoming_log() == old(graph).incoming_log()
            },
        },
{
    let event: Option<GraphEvent<V, S, P>> = match response {
        UiResponse::ConnectEventEnded { output, input } => {
            let o = state.ui_output_id_to_canonical(output).unwrap();
            let i = state.ui_input_id_to_canonical(input).unwrap();
            proof {
                lemma_left_of_unique(bimap_pairs(state.output_map), o.0, output);
                lemma_left_of_unique(bimap_pairs(state.input_map), i.0, input);
            }
            Some(GraphEvent::Connect(o, i))
        },
        UiResponse::CreatedNode(ui_node_id) => {
            let node_id = graph.request_node_id();
            state.link_nodes(node_id, ui_node_id);
            proof {
                lemma_left_of_unique(bimap_pairs(state.node_map), node_id.0, ui_node_id);
            }
            match extract_canonical_data_from_ui_node(state, ui_node_id, ui_node, position) {
                Ok((_, node_data, position)) => Some(GraphEvent::AddNode(node_id, node_data, position)),
                Err(_) => {
                    proof {
                        assert(false);
                    }
                    None
                },
            }
        },
        UiResponse::DeleteNode(_) => {
            proof {
                assert(false);
            }
            None
        },
        UiResponse::DisconnectEvent { output, input } => {
            let o = state.ui_output_id_to_canonical(output).unwrap();
            let i = state.ui_input_id_to_canonical(input).unwrap();
            proof {
                lemma_left_of_unique(bimap_pairs(state.output_map), o.0, output);
                lemma_left_of_unique(bimap_pairs(state.input_map), i.0, input);
            }
            Some(GraphEvent::Disconnect(o, i))
        },
        UiResponse::RaiseNode(ui_node_id) => {
            match extract_canonical_data_from_ui_node(state, ui_node_id, ui_node, position) {
                Ok((node_id, node_data, position)) => Some(GraphEvent::Update(node_id, node_data, position)),
                Err(_) => {
                    proof {
                        assert(false);
                    }
                    None
                },
            }
        },
        UiResponse::Other => None,
    };
    if let Some(event) = event {
        graph.add_outgoing_and_apply_event(event);
    }
}

/// What the editor must do to show an event of the canonical graph.
pub enum UiUpdate<V, S, P> {
    /// Make an editor node from `template` at `position`; it stands for the
    /// canonical node `node_id` (see [`link_added_node`]).
    AddNode { node_id: NodeId, template: NodeTemplate<V, S>, position: P },
    /// Give the input slots of the editor node `ui_node`, in order, the
    /// values `values` (as many as there are of both), and move it to
    /// `position`.
    Update { ui_node: u64, values: Vec<Value<V, S>>, position: P },
    /// Connect the editor output `output` to the editor input `input`.
    Connect { output: u64, input: u64 },
    /// Remove the connection to the editor input `input` from the editor
    /// output `output`.
    Disconnect { input: u64, output: u64 },
}

/// What the editor must do to show `event`: a new node is made from a
/// template of its data; an updated node, a connection and a disconnection
/// are found by the editor keys paired with their canonical ids.
pub fn sync_canonical_to_ui<V: Copy, S: Copy, P: Copy>(event: GraphEvent<V, S, P>, state: &GraphState) -> (r:
    UiUpdate<V, S, P>)
    requires
        state.wf(),
        event matches GraphEvent::Update(id, _, _) ==> has_left(bimap_pairs(state.node_map), id.0),
        event matches GraphEvent::Connect(o, i) ==> has_left(bimap_pairs(state.output_map), o.0) && has_left(
            bimap_pairs(state.input_map),
            i.0,
        ),
        event matches GraphEvent::Disconnect(o, i) ==> has_left(bimap_pairs(state.output_map), o.0) && has_left(
            bimap_pairs(state.input_map),
            i.0,
        ),
    ensures
        match event {
            GraphEvent::AddNode(id, data, position) => r matches UiUpdate::AddNode { node_id, template, position: p }
                && node_id == id && template.canonical_node == data && p == position,
            GraphEvent::Update(id, data, position) => r matches UiUpdate::Update { ui_node, values, position: p }
                && ui_node == right_of(bimap_pairs(state.node_map), id.0) && values@ == ui_values(data) && p
                == position,
            GraphEvent::Connect(o, i) => r matches UiUpdate::Connect { output, input } && output == right_of(
                bimap_pairs(state.output_map),
                o.0,
            ) && input == right_of(bimap_pairs(state.input_map), i.0),
            GraphEvent::Disconnect(o, i) => r matches UiUpdate::Disconnect { input, output } && output == right_of(
                bimap_pairs(state.output_map),
                o.0,
            ) && input == right_of(bimap_pairs(state.input_map), i.0),
        },
{
    match event {
        GraphEvent::AddNode(node_id, node_data, position) => UiUpdate::AddNode {
            node_id,
            template: NodeTemplate::new(node_data),
            position,
        },
        GraphEvent::Update(node_id, node_data, position) => {
            let ui_node = state.canonical_node_id_to_ui(node_id).unwrap();
            proof {
                lemma_right_of_unique(bimap_pairs(state.node_map), node_id.0, ui_node);
            }
            UiUpdate::Update { ui_node, values: canonical_data_to_ui_node(&node_data), position }
        },
        GraphEvent::Connect(output_id, input_id) => {
            let output = state.canonical_output_id_to_ui(output_id).unwrap();
            let input = state.canonical_input_id_to_ui(input_id).unwrap();
            proof {
                lemma_right_of_unique(bimap_pairs(state.output_map), output_id.0, output);
                lemma_right_of_unique(bimap_pairs(state.input_map), input_id.0, input);
            }
            UiUpdate::Connect { output, input }
        },
        GraphEvent::Disconnect(output_id, input_id) => {
            let input = state.canonical_input_id_to_ui(input_id).unwrap();
            let output = state.canonical_output_id_to_ui(output_id).unwrap();
            proof {
                lemma_right_of_unique(bimap_pairs(state.output_map), output_id.0, output);
                lemma_right_of_unique(bimap_pairs(state.input_map), input_id.0, input);
            }
            UiUpdate::Disconnect { input, output }
        },
    }
}

/// Records that the editor node with key `ui_node_id`, made for the
/// canonical node `node_id`, stands for it: the canonical node's id is
/// paired with the key, and its slots with the editor's input and output
/// slots, given by their keys in order (see [`link_canonical_and_ui_io`]).
pub fn link_added_node<V: Copy, S: Copy, P: Copy>(
    graph: &canonical::Graph<V, S, P>,
    state: &mut GraphState,
    node_id: NodeId,
    ui_node_id: u64,
    ui_inputs: &[u64],
    ui_outputs: &[u64],
)
    requires
        graph.node_map().contains_key(node_id.0),
    ensures
        ({
            let node = graph.node_map()[node_id.0];
            &&& bimap_pairs(final(state).node_map) == pairs_with(bimap_pairs(old(state).node_map), node.id.0, ui_node_id)
            &&& bimap_pairs(final(state).input_map) == pairs_with_all(
                bimap_pairs(old(state).input_map),
                node.inputs.map_values(|i: canonical::Input| i.0.0),
                ui_inputs@,
                min_len(node.inputs.len(), ui_inputs@.len()),
            )
            &&& bimap_pairs(final(state).output_map) == pairs_with_all(
                bimap_pairs(old(state).output_map),
                node.outputs.map_values(|o: canonical::Output| o.0.0),
                ui_outputs@,
                min_len(node.outputs.len(), ui_outputs@.len()),
            )
        }),
        old(state).wf() ==> final(state).wf(),
{
    let canonical_node = graph.get_node(node_id).unwrap();
    state.link_nodes(canonical_node.id, ui_node_id);
    link_canonical_and_ui_io(graph, state, node_id, ui_inputs, ui_outputs);
}

/// A connection or disconnection made in the editor, once passed to the
/// canonical graph, is shown back between the same editor slots: the
/// canonical slots of the event it makes are paired with editor keys, and
/// those keys are the ones the editor reported.
pub proof fn lemma_connection_round_trip<V, S, P>(
    response: UiResponse,
    state: GraphState,
    ui_node: Option<&UiNode<V, S>>,
    position: Option<P>,
    new_id: u32,
)
    requires
        state.wf(),
        response is ConnectEventEnded || response is DisconnectEvent,
        response matches UiResponse::ConnectEventEnded { output, input } ==> has_right(
            bimap_pairs(state.output_map),
            output,
        ) && has_right(bimap_pairs(state.input_map), input),
        response matches UiResponse::DisconnectEvent { output, input } ==> has_right(
            bimap_pairs(state.output_map),
            output,
        ) && has_right(bimap_pairs(state.input_map), input),
    ensures
        ({
            let e = event_of::<V, S, P>(response, state, ui_node, position, new_id)->0;
            let (o, i) = match e {
                GraphEvent::Connect(o, i) => (o, i),
                GraphEvent::Disconnect(o, i) => (o, i),
                _ => arbitrary(),
            };
            let (output, input) = match response {
                UiResponse::ConnectEventEnded { output, input } => (output, input),
                UiResponse::DisconnectEvent { output, input } => (output, input),
                _ => arbitrary(),
            };
            &&& response is ConnectEventEnded ==> e is Connect
            &&& response is DisconnectEvent ==> e is Disconnect
            &&& has_left(bimap_pairs(state.output_map), o.0)
            &&& has_left(bimap_pairs(state.input_map), i.0)
            &&& right_of(bimap_pairs(state.output_map), o.0) == output
            &&& right_of(bimap_pairs(state.input_map), i.0) == input
        }),
{
    let (output, input) = match response {
        UiResponse::ConnectEventEnded { output, input } => (output, input),
        UiResponse::DisconnectEvent { output, input } => (output, input),
        _ => arbitrary(),
    };
    let outs = bimap_pairs(state.output_map);
    let ins = bimap_pairs(state.input_map);
    assert(outs.contains((left_of(outs, output), output)));
    assert(ins.contains((left_of(ins, input), input)));
    lemma_right_of_unique(outs, left_of(outs, output), output);
    lemma_right_of_unique(ins, left_of(ins, input), input);
}

/// Canonical data shown in the editor reads back as the same data.
pub proof fn lemma_values_round_trip<V, S>(node: canonical::NodeData<V, S>)
    ensures
        canonical_data_of(NodeKind::spec_of(node), ui_values(node)) == Ok::<
            canonical::NodeData<V, S>,
            CastError<V, S>,
        >(node),
{
}

/// A new editor node made from a template reads back as the template's
/// canonical data: its kind is the template's, and its input values are
/// enough and of the right types.
pub proof fn lemma_new_node_reads_back<V: Copy, S: Copy>(template: NodeTemplate<V, S>)
    ensures
        ({
            let values = crate::client::template_inputs(template.canonical_node).map_values(
                |p: crate::client::InputParamView<V, S>| p.value,
            );
            &&& NodeKind::spec_of(template.canonical_node) is Sphere ==> values.len() >= 2
            &&& canonical_data_of(NodeKind::spec_of(template.canonical_node), values) == Ok::<
                canonical::NodeData<V, S>,
                CastError<V, S>,
            >(template.canonical_node)
        }),
{
}

} // verus!
