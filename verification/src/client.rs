//! What the editor decides without drawing: the kinds of node it offers, the
//! names it shows, which node is selected, and which editor slot stands for
//! which canonical slot.

pub mod sync;

use bimap::BiHashMap;

use vstd::prelude::*;

use crate::canonical;
use crate::id;
use crate::node::NodeId;

verus! {

/// How the model is drawn.
#[derive(Clone, PartialEq, Eq, Structural)]
pub struct RenderParameters {
    pub wireframe: bool,
    pub colours: bool,
}

/// What flows through a slot of the node editor.
#[derive(Clone, Copy, Debug, PartialEq, Eq, Structural)]
pub enum DataType {
    Scalar,
    Vec3,
    SignedDistance,
}

/// The colour the editor draws a slot in.
#[derive(Clone, Copy, Debug, PartialEq, Eq, Structural)]
pub enum SlotColour {
    LightRed,
    LightBlue,
    LightGreen,
}

impl DataType {
    pub open spec fn spec_colour(&self) -> SlotColour {
        match self {
            DataType::Scalar => SlotColour::LightRed,
            DataType::Vec3 => SlotColour::LightBlue,
            DataType::SignedDistance => SlotColour::LightGreen,
        }
    }

    /// The colour of a slot of this type: light red for scalars, light blue
    /// for vectors, light green for signed distances.
    pub fn data_type_color(&self) -> (r: SlotColour)
        ensures
            r == self.spec_colour(),
    {
        match self {
            DataType::Scalar => SlotColour::LightRed,
            DataType::Vec3 => SlotColour::LightBlue,
            DataType::SignedDistance => SlotColour::LightGreen,
        }
    }

    pub open spec fn spec_name(&self) -> Seq<char> {
        match self {
            DataType::Scalar => "scalar"@,
            DataType::Vec3 => "3d vector"@,
            DataType::SignedDistance => "signed distance"@,
        }
    }

    /// The name shown for the type.
    pub fn name(&self) -> (r: &'static str)
        ensures
            r@ == self.spec_name(),
    {
        match self {
            DataType::Scalar => "scalar",
            DataType::Vec3 => "3d vector",
            DataType::SignedDistance => "signed distance",
        }
    }
}

/// The value an input slot of the editor holds.
#[derive(Clone, Copy, Debug, PartialEq)]
pub enum Value<V, S> {
    Vec3 { value: V },
    Scalar { value: S },
    SignedDistance,
}

/// A slot value that was read as a type it is not of.
#[derive(Clone, Copy, Debug, PartialEq)]
pub struct CastError<V, S> {
    pub from: Value<V, S>,
    pub to: DataType,
}

impl<V: Copy, S: Copy> Value<V, S> {
    /// The vector held, or an error when the value is not a vector.
    pub fn try_to_vec3(self) -> (r: Result<V, CastError<V, S>>)
        ensures
            r == (match self {
                Value::Vec3 { value } => Ok(value),
                _ => Err(CastError { from: self, to: DataType::Vec3 }),
            }),
    {
        match self {
            Value::Vec3 { value } => Ok(value),
            _ => Err(CastError { from: self, to: DataType::Vec3 }),
        }
    }

    /// The scalar held, or an error when the value is not a scalar.
    pub fn try_to_scalar(self) -> (r: Result<S, CastError<V, S>>)
        ensures
            r == (match self {
                Value::Scalar { value } => Ok(value),
                _ => Err(CastError { from: self, to: DataType::Scalar }),
            }),
    {
        match self {
            Value::Scalar { value } => Ok(value),
            _ => Err(CastError { from: self, to: DataType::Scalar }),
        }
    }
}

/// The kinds of canonical node.
#[derive(Clone, Copy, Debug, PartialEq, Eq, Structural)]
pub enum NodeKind {
    Sphere,
    Output,
    Union,
}

impl NodeKind {
    pub open spec fn spec_label(&self) -> Seq<char> {
        match self {
            NodeKind::Sphere => "Sphere"@,
            NodeKind::Output => "Output"@,
            NodeKind::Union => "Union"@,
        }
    }

    /// The label shown for the kind.
    pub fn label(&self) -> (r: &'static str)
        ensures
            r@ == self.spec_label(),
    {
        match self {
            NodeKind::Sphere => "Sphere",
            NodeKind::Output => "Output",
            NodeKind::Union => "Union",
        }
    }

    /// The kind of a canonical node.
    pub open spec fn spec_of<V, S>(node: canonical::NodeData<V, S>) -> NodeKind {
        match node {
            canonical::NodeData::Sphere { .. } => NodeKind::Sphere,
            canonical::NodeData::Output => NodeKind::Output,
            canonical::NodeData::Union => NodeKind::Union,
        }
    }
}

impl<'a, V, S> From<&'a canonical::NodeData<V, S>> for NodeKind {
    fn from(node: &'a canonical::NodeData<V, S>) -> (r: Self) {
        match node {
            canonical::NodeData::Sphere { .. } => Self::Sphere,
            canonical::NodeData::Output => Self::Output,
            canonical::NodeData::Union => Self::Union,
        }
    }
}

impl<'a, V, S> vstd::std_specs::convert::FromSpecImpl<&'a canonical::NodeData<V, S>> for NodeKind {
    open spec fn obeys_from_spec() -> bool {
        true
    }

    open spec fn from_spec(node: &'a canonical::NodeData<V, S>) -> Self {
        NodeKind::spec_of(*node)
    }
}


/// What the node editor keeps for each node: its kind.
pub struct NodeData {
    pub kind: NodeKind,
}

/// A kind of node the editor offers, with the canonical node it starts as.
#[derive(Clone)]
pub struct NodeTemplate<V, S> {
    pub canonical_node: canonical::NodeData<V, S>,
}

impl<V: Copy, S: Copy> NodeTemplate<V, S> {
    pub fn new(canonical_node: canonical::NodeData<V, S>) -> (r: NodeTemplate<V, S>)
        ensures
            r.canonical_node == canonical_node,
    {
        NodeTemplate { canonical_node }
    }

    /// The label under which the editor lists the template.
    pub fn node_finder_label(&self) -> (r: &'static str)
        ensures
            r@ == NodeKind::spec_of(self.canonical_node).spec_label(),
    {
        NodeKind::from(&self.canonical_node).label()
    }

    /// The title of a node made from the template.
    pub fn node_graph_label(&self) -> (r: String)
        ensures
            r@ == NodeKind::spec_of(self.canonical_node).spec_label(),
    {
        self.node_finder_label().to_owned()
    }

    /// What the editor keeps for a node made from the template.
    pub fn user_data(&self) -> (r: NodeData)
        ensures
            r.kind == NodeKind::spec_of(self.canonical_node),
    {
        NodeData { kind: NodeKind::from(&self.canonical_node) }
    }
}

/// How an input slot of the editor gets its value.
#[derive(Clone, Copy, Debug, PartialEq, Eq, Structural)]
pub enum InputParamKind {
    /// Only from a connection.
    ConnectionOnly,
    /// Only from the value typed into the slot.
    ConstantOnly,
    /// From a connection where there is one, else from the typed value.
    ConnectionOrConstant,
}

/// An input slot that the editor gives a node.
pub struct InputParam<V, S> {
    pub name: String,
    pub data_type: DataType,
    pub value: Value<V, S>,
    pub kind: InputParamKind,
    pub shown_inline: bool,
}

/// An input slot as a value.
pub struct InputParamView<V, S> {
    pub name: Seq<char>,
    pub data_type: DataType,
    pub value: Value<V, S>,
    pub kind: InputParamKind,
    pub shown_inline: bool,
}

impl<V, S> View for InputParam<V, S> {
    type V = InputParamView<V, S>;

    open spec fn view(&self) -> InputParamView<V, S> {
        InputParamView {
            name: self.name@,
            data_type: self.data_type,
            value: self.value,
            kind: self.kind,
            shown_inline: self.shown_inline,
        }
    }
}

/// An output slot that the editor gives a node.
pub struct OutputParam {
    pub name: String,
    pub data_type: DataType,
}

/// An output slot as a value.
pub struct OutputParamView {
    pub name: Seq<char>,
    pub data_type: DataType,
}

impl View for OutputParam {
    type V = OutputParamView;

    open spec fn view(&self) -> OutputParamView {
        OutputParamView { name: self.name@, data_type: self.data_type }
    }
}

/// The slots of an editor node, each list in the order the editor adds them.
pub struct NodeParams<V, S> {
    pub inputs: Vec<InputParam<V, S>>,
    pub outputs: Vec<OutputParam>,
}

/// An input slot shown inline whose value is typed in.
pub open spec fn constant_input<V, S>(name: Seq<char>, data_type: DataType, value: Value<V, S>) -> InputParamView<V, S> {
    InputParamView { name, data_type, value, kind: InputParamKind::ConstantOnly, shown_inline: true }
}

/// A signed-distance input slot shown inline that only a connection fills.
pub open spec fn connection_input<V, S>(name: Seq<char>) -> InputParamView<V, S> {
    InputParamView {
        name,
        data_type: DataType::SignedDistance,
        value: Value::SignedDistance,
        kind: InputParamKind::ConnectionOnly,
        shown_inline: true,
    }
}

/// A signed-distance output slot.
pub open spec fn distance_output(name: Seq<char>) -> OutputParamView {
    OutputParamView { name, data_type: DataType::SignedDistance }
}

/// The input slots of an editor node made for `node`: a sphere's centre and
/// radius, typed in; an output's one distance; a union's two distances.
pub open spec fn template_inputs<V, S>(node: canonical::NodeData<V, S>) -> Seq<InputParamView<V, S>> {
    match node {
        canonical::NodeData::Sphere { center, radius } => seq![
            constant_input("center"@, DataType::Vec3, Value::Vec3 { value: center }),
            constant_input("radius"@, DataType::Scalar, Value::Scalar { value: radius }),
        ],
        canonical::NodeData::Output => seq![connection_input("in"@)],
        canonical::NodeData::Union => seq![connection_input("lhs"@), connection_input("rhs"@)],
    }
}

/// The output slots of an editor node made for `node`: one distance, but
/// none for an output node.
pub open spec fn template_outputs<V, S>(node: canonical::NodeData<V, S>) -> Seq<OutputParamView> {
    match node {
        canonical::NodeData::Output => seq![],
        _ => seq![distance_output("out"@)],
    }
}

fn input_vec3<V, S>(name: &str, value: V) -> (r: InputParam<V, S>)
    ensures
        r@ == constant_input(name@, DataType::Vec3, Value::<V, S>::Vec3 { value }),
{
    InputParam {
        name: name.to_owned(),
        data_type: DataType::Vec3,
        value: Value::Vec3 { value },
        kind: InputParamKind::ConstantOnly,
        shown_inline: true,
    }
}

fn input_scalar<V, S>(name: &str, value: S) -> (r: InputParam<V, S>)
    ensures
        r@ == constant_input(name@, DataType::Scalar, Value::<V, S>::Scalar { value }),
{
    InputParam {
        name: name.to_owned(),
        data_type: DataType::Scalar,
        value: Value::Scalar { value },
        kind: InputParamKind::ConstantOnly,
        shown_inline: true,
    }
}

fn input_sd<V, S>(name: &str) -> (r: InputParam<V, S>)
    ensures
        r@ == connection_input::<V, S>(name@),
{
    InputParam {
        name: name.to_owned(),
        data_type: DataType::SignedDistance,
        value: Value::SignedDistance,
        kind: InputParamKind::ConnectionOnly,
        shown_inline: true,
    }
}

fn output_sd(name: &str) -> (r: OutputParam)
    ensures
        r@ == distance_output(name@),
{
    OutputParam { name: name.to_owned(), data_type: DataType::SignedDistance }
}

impl<V: Copy, S: Copy> NodeTemplate<V, S> {
    /// The slots of an editor node made from the template; see
    /// [`template_inputs`] and [`template_outputs`].
    pub fn build_node(&self) -> (r: NodeParams<V, S>)
        ensures
            r.inputs@.map_values(|p: InputParam<V, S>| p@) == template_inputs(self.canonical_node),
            r.outputs@.map_values(|p: OutputParam| p@) == template_outputs(self.canonical_node),
    {
        let mut inputs: Vec<InputParam<V, S>> = Vec::new();
        let mut outputs: Vec<OutputParam> = Vec::new();
        match self.canonical_node {
            canonical::NodeData::Sphere { center, radius } => {
                inputs.push(input_vec3("center", center));
                inputs.push(input_scalar("radius", radius));
                outputs.push(output_sd("out"));
            },
            canonical::NodeData::Output => {
                inputs.push(input_sd("in"));
            },
            canonical::NodeData::Union => {
                inputs.push(input_sd("lhs"));
                inputs.push(input_sd("rhs"));
                outputs.push(output_sd("out"));
            },
        }
        assert(inputs@.map_values(|p: InputParam<V, S>| p@) =~= template_inputs(self.canonical_node));
        assert(outputs@.map_values(|p: OutputParam| p@) =~= template_outputs(self.canonical_node));
        NodeParams { inputs, outputs }
    }
}

/// Whether a slot type of the editor is the same as a slot type of the
/// canonical graph.
pub open spec fn same_type(a: DataType, b: canonical::DataType) -> bool {
    match a {
        DataType::Scalar => b == canonical::DataType::Scalar,
        DataType::Vec3 => b == canonical::DataType::Vec3,
        DataType::SignedDistance => b == canonical::DataType::SignedDistance,
    }
}

/// The editor node made for a canonical node has a slot at the position of
/// each canonical slot, of the same type: pairing the slots by position, as
/// [`link_canonical_and_ui_io`] does, pairs every canonical slot, and only
/// with a slot of its own type.
pub proof fn lemma_template_slots_cover_canonical<V: Copy, S: Copy>(node: canonical::NodeData<V, S>)
    ensures
        node.spec_input_types().len() <= template_inputs(node).len(),
        node.spec_output_types().len() == template_outputs(node).len(),
        forall|i: int|
            0 <= i < node.spec_input_types().len() ==> same_type(
                #[trigger] template_inputs(node)[i].data_type,
                node.spec_input_types()[i],
            ),
        forall|i: int|
            0 <= i < node.spec_output_types().len() ==> same_type(
                #[trigger] template_outputs(node)[i].data_type,
                node.spec_output_types()[i],
            ),
{
}

/// In the editor node made for any canonical node, an input slot is filled
/// only by a connection exactly when it carries a signed distance; every
/// other input is typed in, holds a value of its own type, and all inputs
/// are shown inline. A sphere's centre and radius are typed in, and every
/// output carries a signed distance.
pub proof fn lemma_template_input_kinds<V, S>(node: canonical::NodeData<V, S>)
    ensures
        forall|k: int|
            0 <= k < template_inputs(node).len() ==> {
                let p = #[trigger] template_inputs(node)[k];
                &&& (p.kind == InputParamKind::ConnectionOnly <==> p.data_type == DataType::SignedDistance)
                &&& p.data_type != DataType::SignedDistance ==> p.kind == InputParamKind::ConstantOnly
                &&& p.data_type == DataType::Vec3 ==> p.value is Vec3
                &&& p.data_type == DataType::Scalar ==> p.value is Scalar
                &&& p.data_type == DataType::SignedDistance ==> p.value is SignedDistance
                &&& p.shown_inline
            },
        forall|k: int|
            0 <= k < template_outputs(node).len() ==> (#[trigger] template_outputs(node)[k]).data_type
                == DataType::SignedDistance,
        node matches canonical::NodeData::Sphere { center, radius } ==> {
            &&& template_inputs(node).len() == 2
            &&& template_inputs(node)[0].name == "center"@
            &&& template_inputs(node)[0].kind == InputParamKind::ConstantOnly
            &&& template_inputs(node)[0].value == Value::<V, S>::Vec3 { value: center }
            &&& template_inputs(node)[1].name == "radius"@
            &&& template_inputs(node)[1].kind == InputParamKind::ConstantOnly
            &&& template_inputs(node)[1].value == Value::<V, S>::Scalar { value: radius }
        },
{
}

/// The names and colours of the slot types, and the labels of the kinds of
/// node: a template is listed and titled by the name of its canonical
/// node's kind, and the editor keeps that kind for it.
pub proof fn lemma_names_and_labels<V, S>(node: canonical::NodeData<V, S>)
    ensures
        DataType::Scalar.spec_name() == "scalar"@,
        DataType::Vec3.spec_name() == "3d vector"@,
        DataType::SignedDistance.spec_name() == "signed distance"@,
        DataType::Scalar.spec_colour() == SlotColour::LightRed,
        DataType::Vec3.spec_colour() == SlotColour::LightBlue,
        DataType::SignedDistance.spec_colour() == SlotColour::LightGreen,
        NodeKind::spec_of(node).spec_label() == (match node {
            canonical::NodeData::Sphere { .. } => "Sphere"@,
            canonical::NodeData::Output => "Output"@,
            canonical::NodeData::Union => "Union"@,
        }),
        NodeKind::spec_of(node) == (match node {
            canonical::NodeData::Sphere { .. } => NodeKind::Sphere,
            canonical::NodeData::Output => NodeKind::Output,
            canonical::NodeData::Union => NodeKind::Union,
        }),
{
}

/// All the templates the editor offers.
pub struct NodeTemplatesAll;

impl NodeTemplatesAll {
    /// A sphere with the given centre and radius, an output and a union, in
    /// that order.
    pub fn all_kinds<V: Copy, S: Copy>(&self, sphere_center: V, sphere_radius: S) -> (r: Vec<NodeTemplate<V, S>>)
        ensures
            r@.len() == 3,
            r@[0].canonical_node == (canonical::NodeData::Sphere { center: sphere_center, radius: sphere_radius }),
            r@[1].canonical_node == canonical::NodeData::<V, S>::Output,
            r@[2].canonical_node == canonical::NodeData::<V, S>::Union,
    {
        let mut r: Vec<NodeTemplate<V, S>> = Vec::new();
        r.push(NodeTemplate::new(canonical::NodeData::Sphere { center: sphere_center, radius: sphere_radius }));
        r.push(NodeTemplate::new(canonical::NodeData::Output));
        r.push(NodeTemplate::new(canonical::NodeData::Union));
        r
    }
}

/// Which node of the model is selected in the editor; before the first
/// frame, nothing has been decided.
#[derive(PartialEq, Eq, Structural)]
pub enum SelectedNode {
    Uninitialized,
    Initialized(Option<NodeId>),
}

impl Default for SelectedNode {
    fn default() -> (r: Self)
        ensures
            r == SelectedNode::Uninitialized,
    {
        SelectedNode::Uninitialized
    }
}

impl SelectedNode {
    pub open spec fn spec_is_selected(&self, node_id: NodeId) -> bool {
        self matches SelectedNode::Initialized(Some(id)) && id == node_id
    }

    pub fn is_selected(&self, node_id: NodeId) -> (r: bool)
        ensures
            r == self.spec_is_selected(node_id),
    {
        match self {
            SelectedNode::Uninitialized => false,
            SelectedNode::Initialized(inside) => match inside {
                Some(id) => *id == node_id,
                None => false,
            },
        }
    }

    /// Selects `node_id`, or clears the selection when `node_id` was the
    /// selected node.
    pub fn select(&mut self, node_id: NodeId)
        ensures
            *final(self) == (if old(self).spec_is_selected(node_id) {
                SelectedNode::Initialized(None)
            } else {
                SelectedNode::Initialized(Some(node_id))
            }),
    {
        let was_selected = self.is_selected(node_id);
        *self = SelectedNode::Initialized(if was_selected { None } else { Some(node_id) });
    }
}

#[verifier::external_type_specification]
#[verifier::external_body]
#[verifier::reject_recursive_types(L)]
#[verifier::reject_recursive_types(R)]
#[verifier::reject_recursive_types(LS)]
#[verifier::reject_recursive_types(RS)]
pub struct ExBiHashMap<L, R, LS, RS>(bimap::BiHashMap<L, R, LS, RS>);

/// The left-right pairs that a bimap from canonical ids (by their integer)
/// to editor keys holds.
pub uninterp spec fn bimap_pairs(m: BiHashMap<u32, u64>) -> Set<(u32, u64)>;

/// `pairs` after `(l, r)` is put in: the pair with left value `l` and the
/// pair with right value `r` go, and `(l, r)` comes.
pub open spec fn pairs_with(pairs: Set<(u32, u64)>, l: u32, r: u64) -> Set<(u32, u64)> {
    pairs.filter(|p: (u32, u64)| p.0 != l && p.1 != r).insert((l, r))
}

/// `pairs` after the first `n` left and right values are put in as pairs,
/// in order.
pub open spec fn pairs_with_all(pairs: Set<(u32, u64)>, ls: Seq<u32>, rs: Seq<u64>, n: nat) -> Set<
    (u32, u64),
>
    decreases n,
{
    if n == 0 {
        pairs
    } else {
        pairs_with(pairs_with_all(pairs, ls, rs, (n - 1) as nat), ls[n - 1], rs[n - 1])
    }
}

/// Each left value and each right value is in at most one pair.
pub open spec fn one_to_one(pairs: Set<(u32, u64)>) -> bool {
    &&& forall|a: (u32, u64), b: (u32, u64)| pairs.contains(a) && pairs.contains(b) && a.0 == b.0 ==> a == b
    &&& forall|a: (u32, u64), b: (u32, u64)| pairs.contains(a) && pairs.contains(b) && a.1 == b.1 ==> a == b
}

/// `BiHashMap::new`: a bimap with no pairs.
#[verifier::external_body]
fn new_bimap() -> (r: BiHashMap<u32, u64>)
    ensures
        bimap_pairs(r) == Set::<(u32, u64)>::empty(),
{
    BiHashMap::new()
}

/// `BiHashMap::insert`: as its source shows, removes the pair with left
/// value `l` and the pair with right value `r`, where there are such, then
/// adds `(l, r)`. What it returns about the removed pairs is not used.
#[verifier::external_body]
fn bimap_insert(m: &mut BiHashMap<u32, u64>, l: u32, r: u64)
    ensures
        bimap_pairs(*final(m)) == pairs_with(bimap_pairs(*old(m)), l, r),
{
    m.insert(l, r);
}

/// `BiHashMap::get_by_left`, copied: the right value paired with `l`, if any.
#[verifier::external_body]
fn bimap_get_by_left(m: &BiHashMap<u32, u64>, l: u32) -> (r: Option<u64>)
    ensures
        r matches Some(x) ==> bimap_pairs(*m).contains((l, x)),
        r is None ==> forall|x: u64| !bimap_pairs(*m).contains((l, x)),
{
    m.get_by_left(&l).copied()
}

/// `BiHashMap::get_by_right`, copied: the left value paired with `r`, if any.
#[verifier::external_body]
fn bimap_get_by_right(m: &BiHashMap<u32, u64>, r: u64) -> (res: Option<u32>)
    ensures
        res matches Some(x) ==> bimap_pairs(*m).contains((x, r)),
        res is None ==> forall|x: u32| !bimap_pairs(*m).contains((x, r)),
{
    m.get_by_right(&r).copied()
}

proof fn lemma_pairs_with_one_to_one(pairs: Set<(u32, u64)>, l: u32, r: u64)
    requires
        one_to_one(pairs),
    ensures
        one_to_one(pairs_with(pairs, l, r)),
{
}

/// Which editor key stands for which canonical node, input slot and output
/// slot. Canonical ids are given by their integer; editor keys by the
/// number that the editor's key reports of itself.
pub struct GraphState {
    pub node_map: BiHashMap<u32, u64>,
    pub input_map: BiHashMap<u32, u64>,
    pub output_map: BiHashMap<u32, u64>,
}

impl GraphState {
    /// No key stands for two things in any of the maps.
    pub open spec fn wf(&self) -> bool {
        &&& one_to_one(bimap_pairs(self.node_map))
        &&& one_to_one(bimap_pairs(self.input_map))
        &&& one_to_one(bimap_pairs(self.output_map))
    }

    /// Empty maps.
    pub fn new() -> (r: GraphState)
        ensures
            bimap_pairs(r.node_map) == Set::<(u32, u64)>::empty(),
            bimap_pairs(r.input_map) == Set::<(u32, u64)>::empty(),
            bimap_pairs(r.output_map) == Set::<(u32, u64)>::empty(),
            r.wf(),
    {
        GraphState { node_map: new_bimap(), input_map: new_bimap(), output_map: new_bimap() }
    }

    /// Records that the editor node with key `ui_node_id` stands for the
    /// canonical node `canonical_node_id`.
    pub fn link_nodes(&mut self, canonical_node_id: id::NodeId, ui_node_id: u64)
        ensures
            bimap_pairs(final(self).node_map) == pairs_with(bimap_pairs(old(self).node_map), canonical_node_id.0, ui_node_id),
            final(self).input_map == old(self).input_map,
            final(self).output_map == old(self).output_map,
            old(self).wf() ==> final(self).wf(),
    {
        bimap_insert(&mut self.node_map, canonical_node_id.0, ui_node_id);
        proof {
            if old(self).wf() {
                lemma_pairs_with_one_to_one(bimap_pairs(old(self).node_map), canonical_node_id.0, ui_node_id);
            }
        }
    }

    pub fn canonical_node_id_to_ui(&self, canonical_node_id: id::NodeId) -> (r: Option<u64>)
        ensures
            r matches Some(x) ==> bimap_pairs(self.node_map).contains((canonical_node_id.0, x)),
            r is None ==> forall|x: u64| !bimap_pairs(self.node_map).contains((canonical_node_id.0, x)),
    {
        bimap_get_by_left(&self.node_map, canonical_node_id.0)
    }

    pub fn ui_node_id_to_canonical(&self, ui_node_id: u64) -> (r: Option<id::NodeId>)
        ensures
            r matches Some(x) ==> bimap_pairs(self.node_map).contains((x.0, ui_node_id)),
            r is None ==> forall|x: u32| !bimap_pairs(self.node_map).contains((x, ui_node_id)),
    {
        match bimap_get_by_right(&self.node_map, ui_node_id) {
            Some(x) => Some(id::NodeId(x)),
            None => None,
        }
    }

    pub fn canonical_input_id_to_ui(&self, canonical_input_id: id::InputId) -> (r: Option<u64>)
        ensures
            r matches Some(x) ==> bimap_pairs(self.input_map).contains((canonical_input_id.0, x)),
            r is None ==> forall|x: u64| !bimap_pairs(self.input_map).contains((canonical_input_id.0, x)),
    {
        bimap_get_by_left(&self.input_map, canonical_input_id.0)
    }

    pub fn ui_input_id_to_canonical(&self, ui_input_id: u64) -> (r: Option<id::InputId>)
        ensures
            r matches Some(x) ==> bimap_pairs(self.input_map).contains((x.0, ui_input_id)),
            r is None ==> forall|x: u32| !bimap_pairs(self.input_map).contains((x, ui_input_id)),
    {
        match bimap_get_by_right(&self.input_map, ui_input_id) {
            Some(x) => Some(id::InputId(x)),
            None => None,
        }
    }

    pub fn canonical_output_id_to_ui(&self, canonical_output_id: id::OutputId) -> (r: Option<u64>)
        ensures
            r matches Some(x) ==> bimap_pairs(self.output_map).contains((canonical_output_id.0, x)),
            r is None ==> forall|x: u64| !bimap_pairs(self.output_map).contains((canonical_output_id.0, x)),
    {
        bimap_get_by_left(&self.output_map, canonical_output_id.0)
    }

    pub fn ui_output_id_to_canonical(&self, ui_output_id: u64) -> (r: Option<id::OutputId>)
        ensures
            r matches Some(x) ==> bimap_pairs(self.output_map).contains((x.0, ui_output_id)),
            r is None ==> forall|x: u32| !bimap_pairs(self.output_map).contains((x, ui_output_id)),
    {
        match bimap_get_by_right(&self.output_map, ui_output_id) {
            Some(x) => Some(id::OutputId(x)),
            None => None,
        }
    }
}


/// The smaller of two lengths.
pub open spec fn min_len(a: nat, b: nat) -> nat {
    if a <= b {
        a
    } else {
        b
    }
}

proof fn lemma_pairs_with_all_one_to_one(pairs: Set<(u32, u64)>, ls: Seq<u32>, rs: Seq<u64>, n: nat)
    requires
        one_to_one(pairs),
    ensures
        one_to_one(pairs_with_all(pairs, ls, rs, n)),
    decreases n,
{
    if n > 0 {
        lemma_pairs_with_all_one_to_one(pairs, ls, rs, (n - 1) as nat);
        lemma_pairs_with_one_to_one(pairs_with_all(pairs, ls, rs, (n - 1) as nat), ls[n - 1], rs[n - 1]);
    }
}

/// Records that the editor's input and output slots of a node, given by
/// their keys in order, stand for the slots of the canonical node
/// `canonical_node_id`: they are paired in order, for as many as both have.
pub fn link_canonical_and_ui_io<V: Copy, S: Copy, P: Copy>(
    graph: &canonical::Graph<V, S, P>,
    state: &mut GraphState,
    canonical_node_id: id::NodeId,
    ui_inputs: &[u64],
    ui_outputs: &[u64],
)
    requires
        graph.node_map().contains_key(canonical_node_id.0),
    ensures
        ({
            let node = graph.node_map()[canonical_node_id.0];
            &&& bimap_pairs(final(state).input_map) == pairs_with_all(
                bimap_pairs(old(state).input_map),
                node.inputs.map_values(|i: canonical::Input| i.0.0),
                ui_inputs@,
                min_len(node.inputs.len(), ui_inputs@.len()),
            )
            &&& bimap_pairs(final(state).output_map) == pairs_with_all(
                bimap_pairs(old(state).output_map),
                node.outputs.map_values(|o: canonical::Output| o.0.0),
                ui_outputs@,
                min_len(node.outputs.len(), ui_outputs@.len()),
            )
        }),
        final(state).node_map == old(state).node_map,
        old(state).wf() ==> final(state).wf(),
{
    let canonical_node = graph.get_node(canonical_node_id).unwrap();
    let ghost ins = canonical_node.inputs@.map_values(|i: canonical::Input| i.0.0);
    let ghost outs = canonical_node.outputs@.map_values(|o: canonical::Output| o.0.0);
    let n_in = if canonical_node.inputs.len() <= ui_inputs.len() {
        canonical_node.inputs.len()
    } else {
        ui_inputs.len()
    };
    let mut i: usize = 0;
    while i < n_in
        invariant
            i <= n_in,
            n_in <= canonical_node.inputs@.len(),
            n_in <= ui_inputs@.len(),
            ins == canonical_node.inputs@.map_values(|i: canonical::Input| i.0.0),
            bimap_pairs(state.input_map) == pairs_with_all(bimap_pairs(old(state).input_map), ins, ui_inputs@, i as nat),
            state.node_map == old(state).node_map,
            state.output_map == old(state).output_map,
        decreases n_in - i,
    {
        bimap_insert(&mut state.input_map, canonical_node.inputs[i].0.0, ui_inputs[i]);
        i = i + 1;
    }
    let n_out = if canonical_node.outputs.len() <= ui_outputs.len() {
        canonical_node.outputs.len()
    } else {
        ui_outputs.len()
    };
    let mut i: usize = 0;
    while i < n_out
        invariant
            i <= n_out,
            n_out <= canonical_node.outputs@.len(),
            n_out <= ui_outputs@.len(),
            outs == canonical_node.outputs@.map_values(|o: canonical::Output| o.0.0),
            bimap_pairs(state.output_map) == pairs_with_all(bimap_pairs(old(state).output_map), outs, ui_outputs@, i as nat),
            state.node_map == old(state).node_map,
            bimap_pairs(state.input_map) == pairs_with_all(bimap_pairs(old(state).input_map), ins, ui_inputs@, n_in as nat),
        decreases n_out - i,
    {
        bimap_insert(&mut state.output_map, canonical_node.outputs[i].0.0, ui_outputs[i]);
        i = i + 1;
    }
    proof {
        if old(state).wf() {
            lemma_pairs_with_all_one_to_one(bimap_pairs(old(state).input_map), ins, ui_inputs@, n_in as nat);
            lemma_pairs_with_all_one_to_one(bimap_pairs(old(state).output_map), outs, ui_outputs@, n_out as nat);
        }
    }
}


/// In a one-to-one map, the key a canonical id leads to leads back to that
/// id, and the other way round.
pub proof fn lemma_lookups_are_inverse(pairs: Set<(u32, u64)>, c: u32, u: u64)
    requires
        one_to_one(pairs),
        pairs.contains((c, u)),
    ensures
        forall|x: u32| #[trigger] pairs.contains((x, u)) ==> x == c,
        forall|y: u64| #[trigger] pairs.contains((c, y)) ==> y == u,
{
}

/// Selecting the same node twice gives back the selection as it was, once
/// something has been decided.
pub proof fn lemma_select_twice(s: SelectedNode, node_id: NodeId)
    requires
        s is Initialized,
        s matches SelectedNode::Initialized(Some(x)) ==> x == node_id,
    ensures
        ({
            let once = if s.spec_is_selected(node_id) {
                SelectedNode::Initialized(None)
            } else {
                SelectedNode::Initialized(Some(node_id))
            };
            let twice = if once.spec_is_selected(node_id) {
                SelectedNode::Initialized(None)
            } else {
                SelectedNode::Initialized(Some(node_id))
            };
            twice == s
        }),
{
}

} // verus!
