//! The kinds of node a model is built from, their parameters, and diffs of
//! those parameters.
//!
//! Every parameter is either a scalar of type `S` or a vector of type `V`;
//! the parameters are carried and replaced, never computed with.

use vstd::prelude::*;

verus! {

/// The group a kind of node belongs to.
#[derive(Debug, PartialEq, Eq, Structural)]
pub enum NodeCategory {
    Primitive,
    Operation,
    Metadata,
    Transform,
}

/// What every kind of node says about itself.
pub trait NodeDataMeta {
    spec fn spec_name(&self) -> Seq<char>;

    spec fn spec_category(&self) -> NodeCategory;

    spec fn spec_can_have_children(&self) -> bool;

    /// The name shown to the user.
    fn name(&self) -> (r: &'static str)
        ensures
            r@ == self.spec_name(),
    ;

    fn category(&self) -> (r: NodeCategory)
        ensures
            r == self.spec_category(),
    ;

    /// Whether nodes of this kind combine child nodes.
    fn can_have_children(&self) -> (r: bool)
        ensures
            r == self.spec_can_have_children(),
    ;
}

/// A sphere centred on the origin.
#[derive(Debug, Clone, Copy, PartialEq)]
pub struct Sphere<S> {
    pub radius: S,
}

impl<S> NodeDataMeta for Sphere<S> {
    open spec fn spec_name(&self) -> Seq<char> {
        "Sphere"@
    }

    open spec fn spec_category(&self) -> NodeCategory {
        NodeCategory::Primitive
    }

    open spec fn spec_can_have_children(&self) -> bool {
        false
    }

    fn name(&self) -> (r: &'static str) {
        "Sphere"
    }

    fn category(&self) -> (r: NodeCategory) {
        NodeCategory::Primitive
    }

    fn can_have_children(&self) -> (r: bool) {
        false
    }
}

/// A change to some of the fields of a [`Sphere`]; `None` leaves a field as it is.
#[derive(Debug, Clone, Copy, PartialEq)]
pub struct SphereDiff<S> {
    pub radius: Option<S>,
}

impl<S: Copy> SphereDiff<S> {
    /// Whether the diff changes any field.
    pub open spec fn has_changes(&self) -> bool {
        self.radius is Some
    }

    /// The diff itself when it changes something, else `None`.
    pub fn into_option(self) -> (r: Option<Self>)
        ensures
            r == (if self.has_changes() { Some(self) } else { None }),
    {
        let has_changes = self.radius.is_some();
        if has_changes {
            Some(self)
        } else {
            None
        }
    }
}

impl<S: Copy> Sphere<S> {
    /// The value after `diff` is applied: each field that the diff sets takes the diff's value.
    pub open spec fn applied(self, diff: SphereDiff<S>) -> Self {
        Sphere {
            radius: diff.radius.unwrap_or(self.radius),
        }
    }

    pub fn apply(&mut self, diff: SphereDiff<S>)
        ensures
            *final(self) == old(self).applied(diff),
    {
        self.radius = diff.radius.unwrap_or(self.radius);
    }
}

/// A cylinder along the vertical axis, with rounded edges.
#[derive(Debug, Clone, Copy, PartialEq)]
pub struct Cylinder<S> {
    pub cylinder_radius: S,
    pub half_height: S,
    pub rounding_radius: S,
}

impl<S> NodeDataMeta for Cylinder<S> {
    open spec fn spec_name(&self) -> Seq<char> {
        "Cylinder"@
    }

    open spec fn spec_category(&self) -> NodeCategory {
        NodeCategory::Primitive
    }

    open spec fn spec_can_have_children(&self) -> bool {
        false
    }

    fn name(&self) -> (r: &'static str) {
        "Cylinder"
    }

    fn category(&self) -> (r: NodeCategory) {
        NodeCategory::Primitive
    }

    fn can_have_children(&self) -> (r: bool) {
        false
    }
}

/// A change to some of the fields of a [`Cylinder`]; `None` leaves a field as it is.
#[derive(Debug, Clone, Copy, PartialEq)]
pub struct CylinderDiff<S> {
    pub cylinder_radius: Option<S>,
    pub half_height: Option<S>,
    pub rounding_radius: Option<S>,
}

impl<S: Copy> CylinderDiff<S> {
    /// Whether the diff changes any field.
    pub open spec fn has_changes(&self) -> bool {
        self.cylinder_radius is Some || self.half_height is Some || self.rounding_radius is Some
    }

    /// The diff itself when it changes something, else `None`.
    pub fn into_option(self) -> (r: Option<Self>)
        ensures
            r == (if self.has_changes() { Some(self) } else { None }),
    {
        let has_changes = self.cylinder_radius.is_some() || self.half_height.is_some() || self.rounding_radius.is_some();
        if has_changes {
            Some(self)
        } else {
            None
        }
    }
}

impl<S: Copy> Cylinder<S> {
    /// The value after `diff` is applied: each field that the diff sets takes the diff's value.
    pub open spec fn applied(self, diff: CylinderDiff<S>) -> Self {
        Cylinder {
            cylinder_radius: diff.cylinder_radius.unwrap_or(self.cylinder_radius),
            half_height: diff.half_height.unwrap_or(self.half_height),
            rounding_radius: diff.rounding_radius.unwrap_or(self.rounding_radius),
        }
    }

    pub fn apply(&mut self, diff: CylinderDiff<S>)
        ensures
            *final(self) == old(self).applied(diff),
    {
        self.cylinder_radius = diff.cylinder_radius.unwrap_or(self.cylinder_radius);
        self.half_height = diff.half_height.unwrap_or(self.half_height);
        self.rounding_radius = diff.rounding_radius.unwrap_or(self.rounding_radius);
    }
}

/// A torus in the horizontal plane.
#[derive(Debug, Clone, Copy, PartialEq)]
pub struct Torus<S> {
    pub big_r: S,
    pub small_r: S,
}

impl<S> NodeDataMeta for Torus<S> {
    open spec fn spec_name(&self) -> Seq<char> {
        "Torus"@
    }

    open spec fn spec_category(&self) -> NodeCategory {
        NodeCategory::Primitive
    }

    open spec fn spec_can_have_children(&self) -> bool {
        false
    }

    fn name(&self) -> (r: &'static str) {
        "Torus"
    }

    fn category(&self) -> (r: NodeCategory) {
        NodeCategory::Primitive
    }

    fn can_have_children(&self) -> (r: bool) {
        false
    }
}

/// A change to some of the fields of a [`Torus`]; `None` leaves a field as it is.
#[derive(Debug, Clone, Copy, PartialEq)]
pub struct TorusDiff<S> {
    pub big_r: Option<S>,
    pub small_r: Option<S>,
}

impl<S: Copy> TorusDiff<S> {
    /// Whether the diff changes any field.
    pub open spec fn has_changes(&self) -> bool {
        self.big_r is Some || self.small_r is Some
    }

    /// The diff itself when it changes something, else `None`.
    pub fn into_option(self) -> (r: Option<Self>)
        ensures
            r == (if self.has_changes() { Some(self) } else { None }),
    {
        let has_changes = self.big_r.is_some() || self.small_r.is_some();
        if has_changes {
            Some(self)
        } else {
            None
        }
    }
}

impl<S: Copy> Torus<S> {
    /// The value after `diff` is applied: each field that the diff sets takes the diff's value.
    pub open spec fn applied(self, diff: TorusDiff<S>) -> Self {
        Torus {
            big_r: diff.big_r.unwrap_or(self.big_r),
            small_r: diff.small_r.unwrap_or(self.small_r),
        }
    }

    pub fn apply(&mut self, diff: TorusDiff<S>)
        ensures
            *final(self) == old(self).applied(diff),
    {
        self.big_r = diff.big_r.unwrap_or(self.big_r);
        self.small_r = diff.small_r.unwrap_or(self.small_r);
    }
}

/// An infinite plane; its normal is expected to be of unit length.
#[derive(Debug, Clone, Copy, PartialEq)]
pub struct Plane<S, V> {
    pub normal: V,
    pub distance_from_origin: S,
}

impl<S, V> NodeDataMeta for Plane<S, V> {
    open spec fn spec_name(&self) -> Seq<char> {
        "Plane"@
    }

    open spec fn spec_category(&self) -> NodeCategory {
        NodeCategory::Primitive
    }

    open spec fn spec_can_have_children(&self) -> bool {
        false
    }

    fn name(&self) -> (r: &'static str) {
        "Plane"
    }

    fn category(&self) -> (r: NodeCategory) {
        NodeCategory::Primitive
    }

    fn can_have_children(&self) -> (r: bool) {
        false
    }
}

/// A change to some of the fields of a [`Plane`]; `None` leaves a field as it is.
#[derive(Debug, Clone, Copy, PartialEq)]
pub struct PlaneDiff<S, V> {
    pub normal: Option<V>,
    pub distance_from_origin: Option<S>,
}

impl<S: Copy, V: Copy> PlaneDiff<S, V> {
    /// Whether the diff changes any field.
    pub open spec fn has_changes(&self) -> bool {
        self.normal is Some || self.distance_from_origin is Some
    }

    /// The diff itself when it changes something, else `None`.
    pub fn into_option(self) -> (r: Option<Self>)
        ensures
            r == (if self.has_changes() { Some(self) } else { None }),
    {
        let has_changes = self.normal.is_some() || self.distance_from_origin.is_some();
        if has_changes {
            Some(self)
        } else {
            None
        }
    }
}

impl<S: Copy, V: Copy> Plane<S, V> {
    /// The value after `diff` is applied: each field that the diff sets takes the diff's value.
    pub open spec fn applied(self, diff: PlaneDiff<S, V>) -> Self {
        Plane {
            normal: diff.normal.unwrap_or(self.normal),
            distance_from_origin: diff.distance_from_origin.unwrap_or(self.distance_from_origin),
        }
    }

    pub fn apply(&mut self, diff: PlaneDiff<S, V>)
        ensures
            *final(self) == old(self).applied(diff),
    {
        self.normal = diff.normal.unwrap_or(self.normal);
        self.distance_from_origin = diff.distance_from_origin.unwrap_or(self.distance_from_origin);
    }
}

/// A capsule between two points.
#[derive(Debug, Clone, Copy, PartialEq)]
pub struct Capsule<S, V> {
    pub point_1: V,
    pub point_2: V,
    pub radius: S,
}

impl<S, V> NodeDataMeta for Capsule<S, V> {
    open spec fn spec_name(&self) -> Seq<char> {
        "Capsule"@
    }

    open spec fn spec_category(&self) -> NodeCategory {
        NodeCategory::Primitive
    }

    open spec fn spec_can_have_children(&self) -> bool {
        false
    }

    fn name(&self) -> (r: &'static str) {
        "Capsule"
    }

    fn category(&self) -> (r: NodeCategory) {
        NodeCategory::Primitive
    }

    fn can_have_children(&self) -> (r: bool) {
        false
    }
}

/// A change to some of the fields of a [`Capsule`]; `None` leaves a field as it is.
#[derive(Debug, Clone, Copy, PartialEq)]
pub struct CapsuleDiff<S, V> {
    pub point_1: Option<V>,
    pub point_2: Option<V>,
    pub radius: Option<S>,
}

impl<S: Copy, V: Copy> CapsuleDiff<S, V> {
    /// Whether the diff changes any field.
    pub open spec fn has_changes(&self) -> bool {
        self.point_1 is Some || self.point_2 is Some || self.radius is Some
    }

    /// The diff itself when it changes something, else `None`.
    pub fn into_option(self) -> (r: Option<Self>)
        ensures
            r == (if self.has_changes() { Some(self) } else { None }),
    {
        let has_changes = self.point_1.is_some() || self.point_2.is_some() || self.radius.is_some();
        if has_changes {
            Some(self)
        } else {
            None
        }
    }
}

impl<S: Copy, V: Copy> Capsule<S, V> {
    /// The value after `diff` is applied: each field that the diff sets takes the diff's value.
    pub open spec fn applied(self, diff: CapsuleDiff<S, V>) -> Self {
        Capsule {
            point_1: diff.point_1.unwrap_or(self.point_1),
            point_2: diff.point_2.unwrap_or(self.point_2),
            radius: diff.radius.unwrap_or(self.radius),
        }
    }

    pub fn apply(&mut self, diff: CapsuleDiff<S, V>)
        ensures
            *final(self) == old(self).applied(diff),
    {
        self.point_1 = diff.point_1.unwrap_or(self.point_1);
        self.point_2 = diff.point_2.unwrap_or(self.point_2);
        self.radius = diff.radius.unwrap_or(self.radius);
    }
}

/// A capsule whose radius changes from one end to the other.
#[derive(Debug, Clone, Copy, PartialEq)]
pub struct TaperedCapsule<S, V> {
    pub point_1: V,
    pub point_2: V,
    pub radius_1: S,
    pub radius_2: S,
}

impl<S, V> NodeDataMeta for TaperedCapsule<S, V> {
    open spec fn spec_name(&self) -> Seq<char> {
        "Tapered Capsule"@
    }

    open spec fn spec_category(&self) -> NodeCategory {
        NodeCategory::Primitive
    }

    open spec fn spec_can_have_children(&self) -> bool {
        false
    }

    fn name(&self) -> (r: &'static str) {
        "Tapered Capsule"
    }

    fn category(&self) -> (r: NodeCategory) {
        NodeCategory::Primitive
    }

    fn can_have_children(&self) -> (r: bool) {
        false
    }
}

/// A change to some of the fields of a [`TaperedCapsule`]; `None` leaves a field as it is.
#[derive(Debug, Clone, Copy, PartialEq)]
pub struct TaperedCapsuleDiff<S, V> {
    pub point_1: Option<V>,
    pub point_2: Option<V>,
    pub radius_1: Option<S>,
    pub radius_2: Option<S>,
}

impl<S: Copy, V: Copy> TaperedCapsuleDiff<S, V> {
    /// Whether the diff changes any field.
    pub open spec fn has_changes(&self) -> bool {
        self.point_1 is Some || self.point_2 is Some || self.radius_1 is Some || self.radius_2 is Some
    }

    /// The diff itself when it changes something, else `None`.
    pub fn into_option(self) -> (r: Option<Self>)
        ensures
            r == (if self.has_changes() { Some(self) } else { None }),
    {
        let has_changes = self.point_1.is_some() || self.point_2.is_some() || self.radius_1.is_some() || self.radius_2.is_some();
        if has_changes {
            Some(self)
        } else {
            None
        }
    }
}

impl<S: Copy, V: Copy> TaperedCapsule<S, V> {
    /// The value after `diff` is applied: each field that the diff sets takes the diff's value.
    pub open spec fn applied(self, diff: TaperedCapsuleDiff<S, V>) -> Self {
        TaperedCapsule {
            point_1: diff.point_1.unwrap_or(self.point_1),
            point_2: diff.point_2.unwrap_or(self.point_2),
            radius_1: diff.radius_1.unwrap_or(self.radius_1),
            radius_2: diff.radius_2.unwrap_or(self.radius_2),
        }
    }

    pub fn apply(&mut self, diff: TaperedCapsuleDiff<S, V>)
        ensures
            *final(self) == old(self).applied(diff),
    {
        self.point_1 = diff.point_1.unwrap_or(self.point_1);
        self.point_2 = diff.point_2.unwrap_or(self.point_2);
        self.radius_1 = diff.radius_1.unwrap_or(self.radius_1);
        self.radius_2 = diff.radius_2.unwrap_or(self.radius_2);
    }
}

/// A cone standing on the horizontal plane.
#[derive(Debug, Clone, Copy, PartialEq)]
pub struct Cone<S> {
    pub radius: S,
    pub height: S,
}

impl<S> NodeDataMeta for Cone<S> {
    open spec fn spec_name(&self) -> Seq<char> {
        "Cone"@
    }

    open spec fn spec_category(&self) -> NodeCategory {
        NodeCategory::Primitive
    }

    open spec fn spec_can_have_children(&self) -> bool {
        false
    }

    fn name(&self) -> (r: &'static str) {
        "Cone"
    }

    fn category(&self) -> (r: NodeCategory) {
        NodeCategory::Primitive
    }

    fn can_have_children(&self) -> (r: bool) {
        false
    }
}

/// A change to some of the fields of a [`Cone`]; `None` leaves a field as it is.
#[derive(Debug, Clone, Copy, PartialEq)]
pub struct ConeDiff<S> {
    pub radius: Option<S>,
    pub height: Option<S>,
}

impl<S: Copy> ConeDiff<S> {
    /// Whether the diff changes any field.
    pub open spec fn has_changes(&self) -> bool {
        self.radius is Some || self.height is Some
    }

    /// The diff itself when it changes something, else `None`.
    pub fn into_option(self) -> (r: Option<Self>)
        ensures
            r == (if self.has_changes() { Some(self) } else { None }),
    {
        let has_changes = self.radius.is_some() || self.height.is_some();
        if has_changes {
            Some(self)
        } else {
            None
        }
    }
}

impl<S: Copy> Cone<S> {
    /// The value after `diff` is applied: each field that the diff sets takes the diff's value.
    pub open spec fn applied(self, diff: ConeDiff<S>) -> Self {
        Cone {
            radius: diff.radius.unwrap_or(self.radius),
            height: diff.height.unwrap_or(self.height),
        }
    }

    pub fn apply(&mut self, diff: ConeDiff<S>)
        ensures
            *final(self) == old(self).applied(diff),
    {
        self.radius = diff.radius.unwrap_or(self.radius);
        self.height = diff.height.unwrap_or(self.height);
    }
}

/// A box centred on the origin, with rounded edges.
#[derive(Debug, Clone, Copy, PartialEq)]
pub struct Box<S, V> {
    pub half_size: V,
    pub rounding_radius: S,
}

impl<S, V> NodeDataMeta for Box<S, V> {
    open spec fn spec_name(&self) -> Seq<char> {
        "Box"@
    }

    open spec fn spec_category(&self) -> NodeCategory {
        NodeCategory::Primitive
    }

    open spec fn spec_can_have_children(&self) -> bool {
        false
    }

    fn name(&self) -> (r: &'static str) {
        "Box"
    }

    fn category(&self) -> (r: NodeCategory) {
        NodeCategory::Primitive
    }

    fn can_have_children(&self) -> (r: bool) {
        false
    }
}

/// A change to some of the fields of a [`Box`]; `None` leaves a field as it is.
#[derive(Debug, Clone, Copy, PartialEq)]
pub struct BoxDiff<S, V> {
    pub half_size: Option<V>,
    pub rounding_radius: Option<S>,
}

impl<S: Copy, V: Copy> BoxDiff<S, V> {
    /// Whether the diff changes any field.
    pub open spec fn has_changes(&self) -> bool {
        self.half_size is Some || self.rounding_radius is Some
    }

    /// The diff itself when it changes something, else `None`.
    pub fn into_option(self) -> (r: Option<Self>)
        ensures
            r == (if self.has_changes() { Some(self) } else { None }),
    {
        let has_changes = self.half_size.is_some() || self.rounding_radius.is_some();
        if has_changes {
            Some(self)
        } else {
            None
        }
    }
}

impl<S: Copy, V: Copy> Box<S, V> {
    /// The value after `diff` is applied: each field that the diff sets takes the diff's value.
    pub open spec fn applied(self, diff: BoxDiff<S, V>) -> Self {
        Box {
            half_size: diff.half_size.unwrap_or(self.half_size),
            rounding_radius: diff.rounding_radius.unwrap_or(self.rounding_radius),
        }
    }

    pub fn apply(&mut self, diff: BoxDiff<S, V>)
        ensures
            *final(self) == old(self).applied(diff),
    {
        self.half_size = diff.half_size.unwrap_or(self.half_size);
        self.rounding_radius = diff.rounding_radius.unwrap_or(self.rounding_radius);
    }
}

/// A part of a torus, cut at an angle.
#[derive(Debug, Clone, Copy, PartialEq)]
pub struct TorusSector<S> {
    pub big_r: S,
    pub small_r: S,
    pub angle: S,
}

impl<S> NodeDataMeta for TorusSector<S> {
    open spec fn spec_name(&self) -> Seq<char> {
        "Torus Sector"@
    }

    open spec fn spec_category(&self) -> NodeCategory {
        NodeCategory::Primitive
    }

    open spec fn spec_can_have_children(&self) -> bool {
        false
    }

    fn name(&self) -> (r: &'static str) {
        "Torus Sector"
    }

    fn category(&self) -> (r: NodeCategory) {
        NodeCategory::Primitive
    }

    fn can_have_children(&self) -> (r: bool) {
        false
    }
}

/// A change to some of the fields of a [`TorusSector`]; `None` leaves a field as it is.
#[derive(Debug, Clone, Copy, PartialEq)]
pub struct TorusSectorDiff<S> {
    pub big_r: Option<S>,
    pub small_r: Option<S>,
    pub angle: Option<S>,
}

impl<S: Copy> TorusSectorDiff<S> {
    /// Whether the diff changes any field.
    pub open spec fn has_changes(&self) -> bool {
        self.big_r is Some || self.small_r is Some || self.angle is Some
    }

    /// The diff itself when it changes something, else `None`.
    pub fn into_option(self) -> (r: Option<Self>)
        ensures
            r == (if self.has_changes() { Some(self) } else { None }),
    {
        let has_changes = self.big_r.is_some() || self.small_r.is_some() || self.angle.is_some();
        if has_changes {
            Some(self)
        } else {
            None
        }
    }
}

impl<S: Copy> TorusSector<S> {
    /// The value after `diff` is applied: each field that the diff sets takes the diff's value.
    pub open spec fn applied(self, diff: TorusSectorDiff<S>) -> Self {
        TorusSector {
            big_r: diff.big_r.unwrap_or(self.big_r),
            small_r: diff.small_r.unwrap_or(self.small_r),
            angle: diff.angle.unwrap_or(self.angle),
        }
    }

    pub fn apply(&mut self, diff: TorusSectorDiff<S>)
        ensures
            *final(self) == old(self).applied(diff),
    {
        self.big_r = diff.big_r.unwrap_or(self.big_r);
        self.small_r = diff.small_r.unwrap_or(self.small_r);
        self.angle = diff.angle.unwrap_or(self.angle);
    }
}

/// A lens made of two spherical caps.
#[derive(Debug, Clone, Copy, PartialEq)]
pub struct BiconvexLens<S> {
    pub lower_sagitta: S,
    pub upper_sagitta: S,
    pub chord: S,
}

impl<S> NodeDataMeta for BiconvexLens<S> {
    open spec fn spec_name(&self) -> Seq<char> {
        "Biconvex Lens"@
    }

    open spec fn spec_category(&self) -> NodeCategory {
        NodeCategory::Primitive
    }

    open spec fn spec_can_have_children(&self) -> bool {
        false
    }

    fn name(&self) -> (r: &'static str) {
        "Biconvex Lens"
    }

    fn category(&self) -> (r: NodeCategory) {
        NodeCategory::Primitive
    }

    fn can_have_children(&self) -> (r: bool) {
        false
    }
}

/// A change to some of the fields of a [`BiconvexLens`]; `None` leaves a field as it is.
#[derive(Debug, Clone, Copy, PartialEq)]
pub struct BiconvexLensDiff<S> {
    pub lower_sagitta: Option<S>,
    pub upper_sagitta: Option<S>,
    pub chord: Option<S>,
}

impl<S: Copy> BiconvexLensDiff<S> {
    /// Whether the diff changes any field.
    pub open spec fn has_changes(&self) -> bool {
        self.lower_sagitta is Some || self.upper_sagitta is Some || self.chord is Some
    }

    /// The diff itself when it changes something, else `None`.
    pub fn into_option(self) -> (r: Option<Self>)
        ensures
            r == (if self.has_changes() { Some(self) } else { None }),
    {
        let has_changes = self.lower_sagitta.is_some() || self.upper_sagitta.is_some() || self.chord.is_some();
        if has_changes {
            Some(self)
        } else {
            None
        }
    }
}

impl<S: Copy> BiconvexLens<S> {
    /// The value after `diff` is applied: each field that the diff sets takes the diff's value.
    pub open spec fn applied(self, diff: BiconvexLensDiff<S>) -> Self {
        BiconvexLens {
            lower_sagitta: diff.lower_sagitta.unwrap_or(self.lower_sagitta),
            upper_sagitta: diff.upper_sagitta.unwrap_or(self.upper_sagitta),
            chord: diff.chord.unwrap_or(self.chord),
        }
    }

    pub fn apply(&mut self, diff: BiconvexLensDiff<S>)
        ensures
            *final(self) == old(self).applied(diff),
    {
        self.lower_sagitta = diff.lower_sagitta.unwrap_or(self.lower_sagitta);
        self.upper_sagitta = diff.upper_sagitta.unwrap_or(self.upper_sagitta);
        self.chord = diff.chord.unwrap_or(self.chord);
    }
}

/// The union of the child shapes, smoothed by `factor`.
#[derive(Debug, Clone, Copy, PartialEq)]
pub struct Union<S> {
    pub factor: S,
}

impl<S> NodeDataMeta for Union<S> {
    open spec fn spec_name(&self) -> Seq<char> {
        "Union"@
    }

    open spec fn spec_category(&self) -> NodeCategory {
        NodeCategory::Operation
    }

    open spec fn spec_can_have_children(&self) -> bool {
        true
    }

    fn name(&self) -> (r: &'static str) {
        "Union"
    }

    fn category(&self) -> (r: NodeCategory) {
        NodeCategory::Operation
    }

    fn can_have_children(&self) -> (r: bool) {
        true
    }
}

/// A change to some of the fields of a [`Union`]; `None` leaves a field as it is.
#[derive(Debug, Clone, Copy, PartialEq)]
pub struct UnionDiff<S> {
    pub factor: Option<S>,
}

impl<S: Copy> UnionDiff<S> {
    /// Whether the diff changes any field.
    pub open spec fn has_changes(&self) -> bool {
        self.factor is Some
    }

    /// The diff itself when it changes something, else `None`.
    pub fn into_option(self) -> (r: Option<Self>)
        ensures
            r == (if self.has_changes() { Some(self) } else { None }),
    {
        let has_changes = self.factor.is_some();
        if has_changes {
            Some(self)
        } else {
            None
        }
    }
}

impl<S: Copy> Union<S> {
    /// The value after `diff` is applied: each field that the diff sets takes the diff's value.
    pub open spec fn applied(self, diff: UnionDiff<S>) -> Self {
        Union {
            factor: diff.factor.unwrap_or(self.factor),
        }
    }

    pub fn apply(&mut self, diff: UnionDiff<S>)
        ensures
            *final(self) == old(self).applied(diff),
    {
        self.factor = diff.factor.unwrap_or(self.factor);
    }
}

/// The intersection of the child shapes, smoothed by `factor`.
#[derive(Debug, Clone, Copy, PartialEq)]
pub struct Intersect<S> {
    pub factor: S,
}

impl<S> NodeDataMeta for Intersect<S> {
    open spec fn spec_name(&self) -> Seq<char> {
        "Intersect"@
    }

    open spec fn spec_category(&self) -> NodeCategory {
        NodeCategory::Operation
    }

    open spec fn spec_can_have_children(&self) -> bool {
        true
    }

    fn name(&self) -> (r: &'static str) {
        "Intersect"
    }

    fn category(&self) -> (r: NodeCategory) {
        NodeCategory::Operation
    }

    fn can_have_children(&self) -> (r: bool) {
        true
    }
}

/// A change to some of the fields of a [`Intersect`]; `None` leaves a field as it is.
#[derive(Debug, Clone, Copy, PartialEq)]
pub struct IntersectDiff<S> {
    pub factor: Option<S>,
}

impl<S: Copy> IntersectDiff<S> {
    /// Whether the diff changes any field.
    pub open spec fn has_changes(&self) -> bool {
        self.factor is Some
    }

    /// The diff itself when it changes something, else `None`.
    pub fn into_option(self) -> (r: Option<Self>)
        ensures
            r == (if self.has_changes() { Some(self) } else { None }),
    {
        let has_changes = self.factor.is_some();
        if has_changes {
            Some(self)
        } else {
            None
        }
    }
}

impl<S: Copy> Intersect<S> {
    /// The value after `diff` is applied: each field that the diff sets takes the diff's value.
    pub open spec fn applied(self, diff: IntersectDiff<S>) -> Self {
        Intersect {
            factor: diff.factor.unwrap_or(self.factor),
        }
    }

    pub fn apply(&mut self, diff: IntersectDiff<S>)
        ensures
            *final(self) == old(self).applied(diff),
    {
        self.factor = diff.factor.unwrap_or(self.factor);
    }
}

/// The first child shape minus the others, smoothed by `factor`.
#[derive(Debug, Clone, Copy, PartialEq)]
pub struct Subtract<S> {
    pub factor: S,
}

impl<S> NodeDataMeta for Subtract<S> {
    open spec fn spec_name(&self) -> Seq<char> {
        "Subtract"@
    }

    open spec fn spec_category(&self) -> NodeCategory {
        NodeCategory::Operation
    }

    open spec fn spec_can_have_children(&self) -> bool {
        true
    }

    fn name(&self) -> (r: &'static str) {
        "Subtract"
    }

    fn category(&self) -> (r: NodeCategory) {
        NodeCategory::Operation
    }

    fn can_have_children(&self) -> (r: bool) {
        true
    }
}

/// A change to some of the fields of a [`Subtract`]; `None` leaves a field as it is.
#[derive(Debug, Clone, Copy, PartialEq)]
pub struct SubtractDiff<S> {
    pub factor: Option<S>,
}

impl<S: Copy> SubtractDiff<S> {
    /// Whether the diff changes any field.
    pub open spec fn has_changes(&self) -> bool {
        self.factor is Some
    }

    /// The diff itself when it changes something, else `None`.
    pub fn into_option(self) -> (r: Option<Self>)
        ensures
            r == (if self.has_changes() { Some(self) } else { None }),
    {
        let has_changes = self.factor.is_some();
        if has_changes {
            Some(self)
        } else {
            None
        }
    }
}

impl<S: Copy> Subtract<S> {
    /// The value after `diff` is applied: each field that the diff sets takes the diff's value.
    pub open spec fn applied(self, diff: SubtractDiff<S>) -> Self {
        Subtract {
            factor: diff.factor.unwrap_or(self.factor),
        }
    }

    pub fn apply(&mut self, diff: SubtractDiff<S>)
        ensures
            *final(self) == old(self).applied(diff),
    {
        self.factor = diff.factor.unwrap_or(self.factor);
    }
}

/// The parameters of a node: which shape or operation it is, and its fields.
#[derive(Debug, Clone, Copy, PartialEq)]
pub enum NodeData<S, V> {
    Sphere(Sphere<S>),
    Cylinder(Cylinder<S>),
    Torus(Torus<S>),
    Plane(Plane<S, V>),
    Capsule(Capsule<S, V>),
    TaperedCapsule(TaperedCapsule<S, V>),
    Cone(Cone<S>),
    Box(Box<S, V>),
    TorusSector(TorusSector<S>),
    BiconvexLens(BiconvexLens<S>),
    Union(Union<S>),
    Intersect(Intersect<S>),
    Subtract(Subtract<S>),
}

/// A change to the fields of one kind of [`NodeData`].
#[derive(Debug, Clone, Copy, PartialEq)]
pub enum NodeDataDiff<S, V> {
    SphereDiff(SphereDiff<S>),
    CylinderDiff(CylinderDiff<S>),
    TorusDiff(TorusDiff<S>),
    PlaneDiff(PlaneDiff<S, V>),
    CapsuleDiff(CapsuleDiff<S, V>),
    TaperedCapsuleDiff(TaperedCapsuleDiff<S, V>),
    ConeDiff(ConeDiff<S>),
    BoxDiff(BoxDiff<S, V>),
    TorusSectorDiff(TorusSectorDiff<S>),
    BiconvexLensDiff(BiconvexLensDiff<S>),
    UnionDiff(UnionDiff<S>),
    IntersectDiff(IntersectDiff<S>),
    SubtractDiff(SubtractDiff<S>),
}

impl<S, V> From<Sphere<S>> for NodeData<S, V> {
    fn from(data: Sphere<S>) -> (r: NodeData<S, V>) {
        NodeData::Sphere(data)
    }
}

impl<S, V> vstd::std_specs::convert::FromSpecImpl<Sphere<S>> for NodeData<S, V> {
    open spec fn obeys_from_spec() -> bool {
        true
    }

    open spec fn from_spec(data: Sphere<S>) -> NodeData<S, V> {
        NodeData::Sphere(data)
    }
}

impl<S, V> From<Cylinder<S>> for NodeData<S, V> {
    fn from(data: Cylinder<S>) -> (r: NodeData<S, V>) {
        NodeData::Cylinder(data)
    }
}

impl<S, V> vstd::std_specs::convert::FromSpecImpl<Cylinder<S>> for NodeData<S, V> {
    open spec fn obeys_from_spec() -> bool {
        true
    }

    open spec fn from_spec(data: Cylinder<S>) -> NodeData<S, V> {
        NodeData::Cylinder(data)
    }
}

impl<S, V> From<Torus<S>> for NodeData<S, V> {
    fn from(data: Torus<S>) -> (r: NodeData<S, V>) {
        NodeData::Torus(data)
    }
}

impl<S, V> vstd::std_specs::convert::FromSpecImpl<Torus<S>> for NodeData<S, V> {
    open spec fn obeys_from_spec() -> bool {
        true
    }

    open spec fn from_spec(data: Torus<S>) -> NodeData<S, V> {
        NodeData::Torus(data)
    }
}

impl<S, V> From<Plane<S, V>> for NodeData<S, V> {
    fn from(data: Plane<S, V>) -> (r: NodeData<S, V>) {
        NodeData::Plane(data)
    }
}

impl<S, V> vstd::std_specs::convert::FromSpecImpl<Plane<S, V>> for NodeData<S, V> {
    open spec fn obeys_from_spec() -> bool {
        true
    }

    open spec fn from_spec(data: Plane<S, V>) -> NodeData<S, V> {
        NodeData::Plane(data)
    }
}

impl<S, V> From<Capsule<S, V>> for NodeData<S, V> {
    fn from(data: Capsule<S, V>) -> (r: NodeData<S, V>) {
        NodeData::Capsule(data)
    }
}

impl<S, V> vstd::std_specs::convert::FromSpecImpl<Capsule<S, V>> for NodeData<S, V> {
    open spec fn obeys_from_spec() -> bool {
        true
    }

    open spec fn from_spec(data: Capsule<S, V>) -> NodeData<S, V> {
        NodeData::Capsule(data)
    }
}

impl<S, V> From<TaperedCapsule<S, V>> for NodeData<S, V> {
    fn from(data: TaperedCapsule<S, V>) -> (r: NodeData<S, V>) {
        NodeData::TaperedCapsule(data)
    }
}

impl<S, V> vstd::std_specs::convert::FromSpecImpl<TaperedCapsule<S, V>> for NodeData<S, V> {
    open spec fn obeys_from_spec() -> bool {
        true
    }

    open spec fn from_spec(data: TaperedCapsule<S, V>) -> NodeData<S, V> {
        NodeData::TaperedCapsule(data)
    }
}

impl<S, V> From<Cone<S>> for NodeData<S, V> {
    fn from(data: Cone<S>) -> (r: NodeData<S, V>) {
        NodeData::Cone(data)
    }
}

impl<S, V> vstd::std_specs::convert::FromSpecImpl<Cone<S>> for NodeData<S, V> {
    open spec fn obeys_from_spec() -> bool {
        true
    }

    open spec fn from_spec(data: Cone<S>) -> NodeData<S, V> {
        NodeData::Cone(data)
    }
}

impl<S, V> From<Box<S, V>> for NodeData<S, V> {
    fn from(data: Box<S, V>) -> (r: NodeData<S, V>) {
        NodeData::Box(data)
    }
}

impl<S, V> vstd::std_specs::convert::FromSpecImpl<Box<S, V>> for NodeData<S, V> {
    open spec fn obeys_from_spec() -> bool {
        true
    }

    open spec fn from_spec(data: Box<S, V>) -> NodeData<S, V> {
        NodeData::Box(data)
    }
}

impl<S, V> From<TorusSector<S>> for NodeData<S, V> {
    fn from(data: TorusSector<S>) -> (r: NodeData<S, V>) {
        NodeData::TorusSector(data)
    }
}

impl<S, V> vstd::std_specs::convert::FromSpecImpl<TorusSector<S>> for NodeData<S, V> {
    open spec fn obeys_from_spec() -> bool {
        true
    }

    open spec fn from_spec(data: TorusSector<S>) -> NodeData<S, V> {
        NodeData::TorusSector(data)
    }
}

impl<S, V> From<BiconvexLens<S>> for NodeData<S, V> {
    fn from(data: BiconvexLens<S>) -> (r: NodeData<S, V>) {
        NodeData::BiconvexLens(data)
    }
}

impl<S, V> vstd::std_specs::convert::FromSpecImpl<BiconvexLens<S>> for NodeData<S, V> {
    open spec fn obeys_from_spec() -> bool {
        true
    }

    open spec fn from_spec(data: BiconvexLens<S>) -> NodeData<S, V> {
        NodeData::BiconvexLens(data)
    }
}

impl<S, V> From<Union<S>> for NodeData<S, V> {
    fn from(data: Union<S>) -> (r: NodeData<S, V>) {
        NodeData::Union(data)
    }
}

impl<S, V> vstd::std_specs::convert::FromSpecImpl<Union<S>> for NodeData<S, V> {
    open spec fn obeys_from_spec() -> bool {
        true
    }

    open spec fn from_spec(data: Union<S>) -> NodeData<S, V> {
        NodeData::Union(data)
    }
}

impl<S, V> From<Intersect<S>> for NodeData<S, V> {
    fn from(data: Intersect<S>) -> (r: NodeData<S, V>) {
        NodeData::Intersect(data)
    }
}

impl<S, V> vstd::std_specs::convert::FromSpecImpl<Intersect<S>> for NodeData<S, V> {
    open spec fn obeys_from_spec() -> bool {
        true
    }

    open spec fn from_spec(data: Intersect<S>) -> NodeData<S, V> {
        NodeData::Intersect(data)
    }
}

impl<S, V> From<Subtract<S>> for NodeData<S, V> {
    fn from(data: Subtract<S>) -> (r: NodeData<S, V>) {
        NodeData::Subtract(data)
    }
}

impl<S, V> vstd::std_specs::convert::FromSpecImpl<Subtract<S>> for NodeData<S, V> {
    open spec fn obeys_from_spec() -> bool {
        true
    }

    open spec fn from_spec(data: Subtract<S>) -> NodeData<S, V> {
        NodeData::Subtract(data)
    }
}

impl<S, V> From<SphereDiff<S>> for NodeDataDiff<S, V> {
    fn from(diff: SphereDiff<S>) -> (r: NodeDataDiff<S, V>) {
        NodeDataDiff::SphereDiff(diff)
    }
}

impl<S, V> vstd::std_specs::convert::FromSpecImpl<SphereDiff<S>> for NodeDataDiff<S, V> {
    open spec fn obeys_from_spec() -> bool {
        true
    }

    open spec fn from_spec(diff: SphereDiff<S>) -> NodeDataDiff<S, V> {
        NodeDataDiff::SphereDiff(diff)
    }
}

impl<S, V> From<CylinderDiff<S>> for NodeDataDiff<S, V> {
    fn from(diff: CylinderDiff<S>) -> (r: NodeDataDiff<S, V>) {
        NodeDataDiff::CylinderDiff(diff)
    }
}

impl<S, V> vstd::std_specs::convert::FromSpecImpl<CylinderDiff<S>> for NodeDataDiff<S, V> {
    open spec fn obeys_from_spec() -> bool {
        true
    }

    open spec fn from_spec(diff: CylinderDiff<S>) -> NodeDataDiff<S, V> {
        NodeDataDiff::CylinderDiff(diff)
    }
}

impl<S, V> From<TorusDiff<S>> for NodeDataDiff<S, V> {
    fn from(diff: TorusDiff<S>) -> (r: NodeDataDiff<S, V>) {
        NodeDataDiff::TorusDiff(diff)
    }
}

impl<S, V> vstd::std_specs::convert::FromSpecImpl<TorusDiff<S>> for NodeDataDiff<S, V> {
    open spec fn obeys_from_spec() -> bool {
        true
    }

    open spec fn from_spec(diff: TorusDiff<S>) -> NodeDataDiff<S, V> {
        NodeDataDiff::TorusDiff(diff)
    }
}

impl<S, V> From<PlaneDiff<S, V>> for NodeDataDiff<S, V> {
    fn from(diff: PlaneDiff<S, V>) -> (r: NodeDataDiff<S, V>) {
        NodeDataDiff::PlaneDiff(diff)
    }
}

impl<S, V> vstd::std_specs::convert::FromSpecImpl<PlaneDiff<S, V>> for NodeDataDiff<S, V> {
    open spec fn obeys_from_spec() -> bool {
        true
    }

    open spec fn from_spec(diff: PlaneDiff<S, V>) -> NodeDataDiff<S, V> {
        NodeDataDiff::PlaneDiff(diff)
    }
}

impl<S, V> From<CapsuleDiff<S, V>> for NodeDataDiff<S, V> {
    fn from(diff: CapsuleDiff<S, V>) -> (r: NodeDataDiff<S, V>) {
        NodeDataDiff::CapsuleDiff(diff)
    }
}

impl<S, V> vstd::std_specs::convert::FromSpecImpl<CapsuleDiff<S, V>> for NodeDataDiff<S, V> {
    open spec fn obeys_from_spec() -> bool {
        true
    }

    open spec fn from_spec(diff: CapsuleDiff<S, V>) -> NodeDataDiff<S, V> {
        NodeDataDiff::CapsuleDiff(diff)
    }
}

impl<S, V> From<TaperedCapsuleDiff<S, V>> for NodeDataDiff<S, V> {
    fn from(diff: TaperedCapsuleDiff<S, V>) -> (r: NodeDataDiff<S, V>) {
        NodeDataDiff::TaperedCapsuleDiff(diff)
    }
}

impl<S, V> vstd::std_specs::convert::FromSpecImpl<TaperedCapsuleDiff<S, V>> for NodeDataDiff<S, V> {
    open spec fn obeys_from_spec() -> bool {
        true
    }

    open spec fn from_spec(diff: TaperedCapsuleDiff<S, V>) -> NodeDataDiff<S, V> {
        NodeDataDiff::TaperedCapsuleDiff(diff)
    }
}

impl<S, V> From<ConeDiff<S>> for NodeDataDiff<S, V> {
    fn from(diff: ConeDiff<S>) -> (r: NodeDataDiff<S, V>) {
        NodeDataDiff::ConeDiff(diff)
    }
}

impl<S, V> vstd::std_specs::convert::FromSpecImpl<ConeDiff<S>> for NodeDataDiff<S, V> {
    open spec fn obeys_from_spec() -> bool {
        true
    }

    open spec fn from_spec(diff: ConeDiff<S>) -> NodeDataDiff<S, V> {
        NodeDataDiff::ConeDiff(diff)
    }
}

impl<S, V> From<BoxDiff<S, V>> for NodeDataDiff<S, V> {
    fn from(diff: BoxDiff<S, V>) -> (r: NodeDataDiff<S, V>) {
        NodeDataDiff::BoxDiff(diff)
    }
}

impl<S, V> vstd::std_specs::convert::FromSpecImpl<BoxDiff<S, V>> for NodeDataDiff<S, V> {
    open spec fn obeys_from_spec() -> bool {
        true
    }

    open spec fn from_spec(diff: BoxDiff<S, V>) -> NodeDataDiff<S, V> {
        NodeDataDiff::BoxDiff(diff)
    }
}

impl<S, V> From<TorusSectorDiff<S>> for NodeDataDiff<S, V> {
    fn from(diff: TorusSectorDiff<S>) -> (r: NodeDataDiff<S, V>) {
        NodeDataDiff::TorusSectorDiff(diff)
    }
}

impl<S, V> vstd::std_specs::convert::FromSpecImpl<TorusSectorDiff<S>> for NodeDataDiff<S, V> {
    open spec fn obeys_from_spec() -> bool {
        true
    }

    open spec fn from_spec(diff: TorusSectorDiff<S>) -> NodeDataDiff<S, V> {
        NodeDataDiff::TorusSectorDiff(diff)
    }
}

impl<S, V> From<BiconvexLensDiff<S>> for NodeDataDiff<S, V> {
    fn from(diff: BiconvexLensDiff<S>) -> (r: NodeDataDiff<S, V>) {
        NodeDataDiff::BiconvexLensDiff(diff)
    }
}

impl<S, V> vstd::std_specs::convert::FromSpecImpl<BiconvexLensDiff<S>> for NodeDataDiff<S, V> {
    open spec fn obeys_from_spec() -> bool {
        true
    }

    open spec fn from_spec(diff: BiconvexLensDiff<S>) -> NodeDataDiff<S, V> {
        NodeDataDiff::BiconvexLensDiff(diff)
    }
}

impl<S, V> From<UnionDiff<S>> for NodeDataDiff<S, V> {
    fn from(diff: UnionDiff<S>) -> (r: NodeDataDiff<S, V>) {
        NodeDataDiff::UnionDiff(diff)
    }
}

impl<S, V> vstd::std_specs::convert::FromSpecImpl<UnionDiff<S>> for NodeDataDiff<S, V> {
    open spec fn obeys_from_spec() -> bool {
        true
    }

    open spec fn from_spec(diff: UnionDiff<S>) -> NodeDataDiff<S, V> {
        NodeDataDiff::UnionDiff(diff)
    }
}

impl<S, V> From<IntersectDiff<S>> for NodeDataDiff<S, V> {
    fn from(diff: IntersectDiff<S>) -> (r: NodeDataDiff<S, V>) {
        NodeDataDiff::IntersectDiff(diff)
    }
}

impl<S, V> vstd::std_specs::convert::FromSpecImpl<IntersectDiff<S>> for NodeDataDiff<S, V> {
    open spec fn obeys_from_spec() -> bool {
        true
    }

    open spec fn from_spec(diff: IntersectDiff<S>) -> NodeDataDiff<S, V> {
        NodeDataDiff::IntersectDiff(diff)
    }
}

impl<S, V> From<SubtractDiff<S>> for NodeDataDiff<S, V> {
    fn from(diff: SubtractDiff<S>) -> (r: NodeDataDiff<S, V>) {
        NodeDataDiff::SubtractDiff(diff)
    }
}

impl<S, V> vstd::std_specs::convert::FromSpecImpl<SubtractDiff<S>> for NodeDataDiff<S, V> {
    open spec fn obeys_from_spec() -> bool {
        true
    }

    open spec fn from_spec(diff: SubtractDiff<S>) -> NodeDataDiff<S, V> {
        NodeDataDiff::SubtractDiff(diff)
    }
}

impl<S, V> NodeDataMeta for NodeData<S, V> {
    open spec fn spec_name(&self) -> Seq<char> {
        match self {
            NodeData::Sphere(d) => d.spec_name(),
            NodeData::Cylinder(d) => d.spec_name(),
            NodeData::Torus(d) => d.spec_name(),
            NodeData::Plane(d) => d.spec_name(),
            NodeData::Capsule(d) => d.spec_name(),
            NodeData::TaperedCapsule(d) => d.spec_name(),
            NodeData::Cone(d) => d.spec_name(),
            NodeData::Box(d) => d.spec_name(),
            NodeData::TorusSector(d) => d.spec_name(),
            NodeData::BiconvexLens(d) => d.spec_name(),
            NodeData::Union(d) => d.spec_name(),
            NodeData::Intersect(d) => d.spec_name(),
            NodeData::Subtract(d) => d.spec_name(),
        }
    }

    open spec fn spec_category(&self) -> NodeCategory {
        match self {
            NodeData::Sphere(d) => d.spec_category(),
            NodeData::Cylinder(d) => d.spec_category(),
            NodeData::Torus(d) => d.spec_category(),
            NodeData::Plane(d) => d.spec_category(),
            NodeData::Capsule(d) => d.spec_category(),
            NodeData::TaperedCapsule(d) => d.spec_category(),
            NodeData::Cone(d) => d.spec_category(),
            NodeData::Box(d) => d.spec_category(),
            NodeData::TorusSector(d) => d.spec_category(),
            NodeData::BiconvexLens(d) => d.spec_category(),
            NodeData::Union(d) => d.spec_category(),
            NodeData::Intersect(d) => d.spec_category(),
            NodeData::Subtract(d) => d.spec_category(),
        }
    }

    open spec fn spec_can_have_children(&self) -> bool {
        match self {
            NodeData::Sphere(d) => d.spec_can_have_children(),
            NodeData::Cylinder(d) => d.spec_can_have_children(),
            NodeData::Torus(d) => d.spec_can_have_children(),
            NodeData::Plane(d) => d.spec_can_have_children(),
            NodeData::Capsule(d) => d.spec_can_have_children(),
            NodeData::TaperedCapsule(d) => d.spec_can_have_children(),
            NodeData::Cone(d) => d.spec_can_have_children(),
            NodeData::Box(d) => d.spec_can_have_children(),
            NodeData::TorusSector(d) => d.spec_can_have_children(),
            NodeData::BiconvexLens(d) => d.spec_can_have_children(),
            NodeData::Union(d) => d.spec_can_have_children(),
            NodeData::Intersect(d) => d.spec_can_have_children(),
            NodeData::Subtract(d) => d.spec_can_have_children(),
        }
    }

    fn name(&self) -> (r: &'static str) {
        match self {
            NodeData::Sphere(d) => d.name(),
            NodeData::Cylinder(d) => d.name(),
            NodeData::Torus(d) => d.name(),
            NodeData::Plane(d) => d.name(),
            NodeData::Capsule(d) => d.name(),
            NodeData::TaperedCapsule(d) => d.name(),
            NodeData::Cone(d) => d.name(),
            NodeData::Box(d) => d.name(),
            NodeData::TorusSector(d) => d.name(),
            NodeData::BiconvexLens(d) => d.name(),
            NodeData::Union(d) => d.name(),
            NodeData::Intersect(d) => d.name(),
            NodeData::Subtract(d) => d.name(),
        }
    }

    fn category(&self) -> (r: NodeCategory) {
        match self {
            NodeData::Sphere(d) => d.category(),
            NodeData::Cylinder(d) => d.category(),
            NodeData::Torus(d) => d.category(),
            NodeData::Plane(d) => d.category(),
            NodeData::Capsule(d) => d.category(),
            NodeData::TaperedCapsule(d) => d.category(),
            NodeData::Cone(d) => d.category(),
            NodeData::Box(d) => d.category(),
            NodeData::TorusSector(d) => d.category(),
            NodeData::BiconvexLens(d) => d.category(),
            NodeData::Union(d) => d.category(),
            NodeData::Intersect(d) => d.category(),
            NodeData::Subtract(d) => d.category(),
        }
    }

    fn can_have_children(&self) -> (r: bool) {
        match self {
            NodeData::Sphere(d) => d.can_have_children(),
            NodeData::Cylinder(d) => d.can_have_children(),
            NodeData::Torus(d) => d.can_have_children(),
            NodeData::Plane(d) => d.can_have_children(),
            NodeData::Capsule(d) => d.can_have_children(),
            NodeData::TaperedCapsule(d) => d.can_have_children(),
            NodeData::Cone(d) => d.can_have_children(),
            NodeData::Box(d) => d.can_have_children(),
            NodeData::TorusSector(d) => d.can_have_children(),
            NodeData::BiconvexLens(d) => d.can_have_children(),
            NodeData::Union(d) => d.can_have_children(),
            NodeData::Intersect(d) => d.can_have_children(),
            NodeData::Subtract(d) => d.can_have_children(),
        }
    }
}

impl<S: Copy, V: Copy> NodeDataDiff<S, V> {
    /// Whether the diff changes any field.
    pub open spec fn has_changes(&self) -> bool {
        match self {
            NodeDataDiff::SphereDiff(d) => d.has_changes(),
            NodeDataDiff::CylinderDiff(d) => d.has_changes(),
            NodeDataDiff::TorusDiff(d) => d.has_changes(),
            NodeDataDiff::PlaneDiff(d) => d.has_changes(),
            NodeDataDiff::CapsuleDiff(d) => d.has_changes(),
            NodeDataDiff::TaperedCapsuleDiff(d) => d.has_changes(),
            NodeDataDiff::ConeDiff(d) => d.has_changes(),
            NodeDataDiff::BoxDiff(d) => d.has_changes(),
            NodeDataDiff::TorusSectorDiff(d) => d.has_changes(),
            NodeDataDiff::BiconvexLensDiff(d) => d.has_changes(),
            NodeDataDiff::UnionDiff(d) => d.has_changes(),
            NodeDataDiff::IntersectDiff(d) => d.has_changes(),
            NodeDataDiff::SubtractDiff(d) => d.has_changes(),
        }
    }
}

impl<S: Copy, V: Copy> NodeData<S, V> {
    /// The data after `diff` is applied; a diff for another kind of node changes nothing.
    pub open spec fn applied(self, diff: NodeDataDiff<S, V>) -> Self {
        match (self, diff) {
            (NodeData::Sphere(d), NodeDataDiff::SphereDiff(c)) => NodeData::Sphere(d.applied(c)),
            (NodeData::Cylinder(d), NodeDataDiff::CylinderDiff(c)) => NodeData::Cylinder(d.applied(c)),
            (NodeData::Torus(d), NodeDataDiff::TorusDiff(c)) => NodeData::Torus(d.applied(c)),
            (NodeData::Plane(d), NodeDataDiff::PlaneDiff(c)) => NodeData::Plane(d.applied(c)),
            (NodeData::Capsule(d), NodeDataDiff::CapsuleDiff(c)) => NodeData::Capsule(d.applied(c)),
            (NodeData::TaperedCapsule(d), NodeDataDiff::TaperedCapsuleDiff(c)) => NodeData::TaperedCapsule(d.applied(c)),
            (NodeData::Cone(d), NodeDataDiff::ConeDiff(c)) => NodeData::Cone(d.applied(c)),
            (NodeData::Box(d), NodeDataDiff::BoxDiff(c)) => NodeData::Box(d.applied(c)),
            (NodeData::TorusSector(d), NodeDataDiff::TorusSectorDiff(c)) => NodeData::TorusSector(d.applied(c)),
            (NodeData::BiconvexLens(d), NodeDataDiff::BiconvexLensDiff(c)) => NodeData::BiconvexLens(d.applied(c)),
            (NodeData::Union(d), NodeDataDiff::UnionDiff(c)) => NodeData::Union(d.applied(c)),
            (NodeData::Intersect(d), NodeDataDiff::IntersectDiff(c)) => NodeData::Intersect(d.applied(c)),
            (NodeData::Subtract(d), NodeDataDiff::SubtractDiff(c)) => NodeData::Subtract(d.applied(c)),
            _ => self,
        }
    }

    pub fn apply(&mut self, diff: NodeDataDiff<S, V>)
        ensures
            *final(self) == old(self).applied(diff),
    {
        match diff {
            NodeDataDiff::SphereDiff(c) => {
                if let NodeData::Sphere(d) = self {
                    d.apply(c);
                }
            },
            NodeDataDiff::CylinderDiff(c) => {
                if let NodeData::Cylinder(d) = self {
                    d.apply(c);
                }
            },
            NodeDataDiff::TorusDiff(c) => {
                if let NodeData::Torus(d) = self {
                    d.apply(c);
                }
            },
            NodeDataDiff::PlaneDiff(c) => {
                if let NodeData::Plane(d) = self {
                    d.apply(c);
                }
            },
            NodeDataDiff::CapsuleDiff(c) => {
                if let NodeData::Capsule(d) = self {
                    d.apply(c);
                }
            },
            NodeDataDiff::TaperedCapsuleDiff(c) => {
                if let NodeData::TaperedCapsule(d) = self {
                    d.apply(c);
                }
            },
            NodeDataDiff::ConeDiff(c) => {
                if let NodeData::Cone(d) = self {
                    d.apply(c);
                }
            },
            NodeDataDiff::BoxDiff(c) => {
                if let NodeData::Box(d) = self {
                    d.apply(c);
                }
            },
            NodeDataDiff::TorusSectorDiff(c) => {
                if let NodeData::TorusSector(d) = self {
                    d.apply(c);
                }
            },
            NodeDataDiff::BiconvexLensDiff(c) => {
                if let NodeData::BiconvexLens(d) = self {
                    d.apply(c);
                }
            },
            NodeDataDiff::UnionDiff(c) => {
                if let NodeData::Union(d) = self {
                    d.apply(c);
                }
            },
            NodeDataDiff::IntersectDiff(c) => {
                if let NodeData::Intersect(d) = self {
                    d.apply(c);
                }
            },
            NodeDataDiff::SubtractDiff(c) => {
                if let NodeData::Subtract(d) = self {
                    d.apply(c);
                }
            },
        }
    }
}


/// Only operations combine child nodes: a kind of node can have children
/// exactly when its category is `Operation`.
pub proof fn lemma_children_only_for_operations<S, V>(d: NodeData<S, V>)
    ensures
        d.spec_can_have_children() <==> d.spec_category() == NodeCategory::Operation,
{
}

/// Applying the same diff twice has the effect of applying it once.
pub proof fn lemma_apply_idempotent<S: Copy, V: Copy>(d: NodeData<S, V>, diff: NodeDataDiff<S, V>)
    ensures
        d.applied(diff).applied(diff) == d.applied(diff),
{
}

/// A diff that changes no field leaves the data as it is.
pub proof fn lemma_apply_without_changes<S: Copy, V: Copy>(
    d: NodeData<S, V>,
    diff: NodeDataDiff<S, V>,
)
    requires
        !diff.has_changes(),
    ensures
        d.applied(diff) == d,
{
}

/// Applying a diff keeps the kind of node, so its name, category and whether
/// it can have children stay the same.
pub proof fn lemma_apply_keeps_kind<S: Copy, V: Copy>(d: NodeData<S, V>, diff: NodeDataDiff<S, V>)
    ensures
        d.applied(diff).spec_name() == d.spec_name(),
        d.applied(diff).spec_category() == d.spec_category(),
        d.applied(diff).spec_can_have_children() == d.spec_can_have_children(),
{
}

/// Applying a [`SphereDiff`] gives each field that the diff sets the diff's
/// value and leaves every other field as it was; a diff that sets a field is
/// kept by `into_option`, and one that `into_option` drops changes nothing.
pub proof fn lemma_sphere_diff<S: Copy>(t: Sphere<S>, d: SphereDiff<S>)
    ensures
        d.radius matches Some(x) ==> t.applied(d).radius == x,
        d.radius is None ==> t.applied(d).radius == t.radius,
        d.radius is Some ==> d.has_changes(),
        !d.has_changes() ==> t.applied(d) == t,
{
}

/// Applying a [`CylinderDiff`] gives each field that the diff sets the diff's
/// value and leaves every other field as it was; a diff that sets a field is
/// kept by `into_option`, and one that `into_option` drops changes nothing.
pub proof fn lemma_cylinder_diff<S: Copy>(t: Cylinder<S>, d: CylinderDiff<S>)
    ensures
        d.cylinder_radius matches Some(x) ==> t.applied(d).cylinder_radius == x,
        d.cylinder_radius is None ==> t.applied(d).cylinder_radius == t.cylinder_radius,
        d.half_height matches Some(x) ==> t.applied(d).half_height == x,
        d.half_height is None ==> t.applied(d).half_height == t.half_height,
        d.rounding_radius matches Some(x) ==> t.applied(d).rounding_radius == x,
        d.rounding_radius is None ==> t.applied(d).rounding_radius == t.rounding_radius,
        d.cylinder_radius is Some || d.half_height is Some || d.rounding_radius is Some ==> d.has_changes(),
        !d.has_changes() ==> t.applied(d) == t,
{
}

/// Applying a [`TorusDiff`] gives each field that the diff sets the diff's
/// value and leaves every other field as it was; a diff that sets a field is
/// kept by `into_option`, and one that `into_option` drops changes nothing.
pub proof fn lemma_torus_diff<S: Copy>(t: Torus<S>, d: TorusDiff<S>)
    ensures
        d.big_r matches Some(x) ==> t.applied(d).big_r == x,
        d.big_r is None ==> t.applied(d).big_r == t.big_r,
        d.small_r matches Some(x) ==> t.applied(d).small_r == x,
        d.small_r is None ==> t.applied(d).small_r == t.small_r,
        d.big_r is Some || d.small_r is Some ==> d.has_changes(),
        !d.has_changes() ==> t.applied(d) == t,
{
}

/// Applying a [`PlaneDiff`] gives each field that the diff sets the diff's
/// value and leaves every other field as it was; a diff that sets a field is
/// kept by `into_option`, and one that `into_option` drops changes nothing.
pub proof fn lemma_plane_diff<S: Copy, V: Copy>(t: Plane<S, V>, d: PlaneDiff<S, V>)
    ensures
        d.normal matches Some(x) ==> t.applied(d).normal == x,
        d.normal is None ==> t.applied(d).normal == t.normal,
        d.distance_from_origin matches Some(x) ==> t.applied(d).distance_from_origin == x,
        d.distance_from_origin is None ==> t.applied(d).distance_from_origin == t.distance_from_origin,
        d.normal is Some || d.distance_from_origin is Some ==> d.has_changes(),
        !d.has_changes() ==> t.applied(d) == t,
{
}

/// Applying a [`CapsuleDiff`] gives each field that the diff sets the diff's
/// value and leaves every other field as it was; a diff that sets a field is
/// kept by `into_option`, and one that `into_option` drops changes nothing.
pub proof fn lemma_capsule_diff<S: Copy, V: Copy>(t: Capsule<S, V>, d: CapsuleDiff<S, V>)
    ensures
        d.point_1 matches Some(x) ==> t.applied(d).point_1 == x,
        d.point_1 is None ==> t.applied(d).point_1 == t.point_1,
        d.point_2 matches Some(x) ==> t.applied(d).point_2 == x,
        d.point_2 is None ==> t.applied(d).point_2 == t.point_2,
        d.radius matches Some(x) ==> t.applied(d).radius == x,
        d.radius is None ==> t.applied(d).radius == t.radius,
        d.point_1 is Some || d.point_2 is Some || d.radius is Some ==> d.has_changes(),
        !d.has_changes() ==> t.applied(d) == t,
{
}

/// Applying a [`TaperedCapsuleDiff`] gives each field that the diff sets the diff's
/// value and leaves every other field as it was; a diff that sets a field is
/// kept by `into_option`, and one that `into_option` drops changes nothing.
pub proof fn lemma_tapered_capsule_diff<S: Copy, V: Copy>(t: TaperedCapsule<S, V>, d: TaperedCapsuleDiff<S, V>)
    ensures
        d.point_1 matches Some(x) ==> t.applied(d).point_1 == x,
        d.point_1 is None ==> t.applied(d).point_1 == t.point_1,
        d.point_2 matches Some(x) ==> t.applied(d).point_2 == x,
        d.point_2 is None ==> t.applied(d).point_2 == t.point_2,
        d.radius_1 matches Some(x) ==> t.applied(d).radius_1 == x,
        d.radius_1 is None ==> t.applied(d).radius_1 == t.radius_1,
        d.radius_2 matches Some(x) ==> t.applied(d).radius_2 == x,
        d.radius_2 is None ==> t.applied(d).radius_2 == t.radius_2,
        d.point_1 is Some || d.point_2 is Some || d.radius_1 is Some || d.radius_2 is Some ==> d.has_changes(),
        !d.has_changes() ==> t.applied(d) == t,
{
}

/// Applying a [`ConeDiff`] gives each field that the diff sets the diff's
/// value and leaves every other field as it was; a diff that sets a field is
/// kept by `into_option`, and one that `into_option` drops changes nothing.
pub proof fn lemma_cone_diff<S: Copy>(t: Cone<S>, d: ConeDiff<S>)
    ensures
        d.radius matches Some(x) ==> t.applied(d).radius == x,
        d.radius is None ==> t.applied(d).radius == t.radius,
        d.height matches Some(x) ==> t.applied(d).height == x,
        d.height is None ==> t.applied(d).height == t.height,
        d.radius is Some || d.height is Some ==> d.has_changes(),
        !d.has_changes() ==> t.applied(d) == t,
{
}

/// Applying a [`BoxDiff`] gives each field that the diff sets the diff's
/// value and leaves every other field as it was; a diff that sets a field is
/// kept by `into_option`, and one that `into_option` drops changes nothing.
pub proof fn lemma_box_diff<S: Copy, V: Copy>(t: Box<S, V>, d: BoxDiff<S, V>)
    ensures
        d.half_size matches Some(x) ==> t.applied(d).half_size == x,
        d.half_size is None ==> t.applied(d).half_size == t.half_size,
        d.rounding_radius matches Some(x) ==> t.applied(d).rounding_radius == x,
        d.rounding_radius is None ==> t.applied(d).rounding_radius == t.rounding_radius,
        d.half_size is Some || d.rounding_radius is Some ==> d.has_changes(),
        !d.has_changes() ==> t.applied(d) == t,
{
}

/// Applying a [`TorusSectorDiff`] gives each field that the diff sets the diff's
/// value and leaves every other field as it was; a diff that sets a field is
/// kept by `into_option`, and one that `into_option` drops changes nothing.
pub proof fn lemma_torus_sector_diff<S: Copy>(t: TorusSector<S>, d: TorusSectorDiff<S>)
    ensures
        d.big_r matches Some(x) ==> t.applied(d).big_r == x,
        d.big_r is None ==> t.applied(d).big_r == t.big_r,
        d.small_r matches Some(x) ==> t.applied(d).small_r == x,
        d.small_r is None ==> t.applied(d).small_r == t.small_r,
        d.angle matches Some(x) ==> t.applied(d).angle == x,
        d.angle is None ==> t.applied(d).angle == t.angle,
        d.big_r is Some || d.small_r is Some || d.angle is Some ==> d.has_changes(),
        !d.has_changes() ==> t.applied(d) == t,
{
}

/// Applying a [`BiconvexLensDiff`] gives each field that the diff sets the diff's
/// value and leaves every other field as it was; a diff that sets a field is
/// kept by `into_option`, and one that `into_option` drops changes nothing.
pub proof fn lemma_biconvex_lens_diff<S: Copy>(t: BiconvexLens<S>, d: BiconvexLensDiff<S>)
    ensures
        d.lower_sagitta matches Some(x) ==> t.applied(d).lower_sagitta == x,
        d.lower_sagitta is None ==> t.applied(d).lower_sagitta == t.lower_sagitta,
        d.upper_sagitta matches Some(x) ==> t.applied(d).upper_sagitta == x,
        d.upper_sagitta is None ==> t.applied(d).upper_sagitta == t.upper_sagitta,
        d.chord matches Some(x) ==> t.applied(d).chord == x,
        d.chord is None ==> t.applied(d).chord == t.chord,
        d.lower_sagitta is Some || d.upper_sagitta is Some || d.chord is Some ==> d.has_changes(),
        !d.has_changes() ==> t.applied(d) == t,
{
}

/// Applying a [`UnionDiff`] gives each field that the diff sets the diff's
/// value and leaves every other field as it was; a diff that sets a field is
/// kept by `into_option`, and one that `into_option` drops changes nothing.
pub proof fn lemma_union_diff<S: Copy>(t: Union<S>, d: UnionDiff<S>)
    ensures
        d.factor matches Some(x) ==> t.applied(d).factor == x,
        d.factor is None ==> t.applied(d).factor == t.factor,
        d.factor is Some ==> d.has_changes(),
        !d.has_changes() ==> t.applied(d) == t,
{
}

/// Applying a [`IntersectDiff`] gives each field that the diff sets the diff's
/// value and leaves every other field as it was; a diff that sets a field is
/// kept by `into_option`, and one that `into_option` drops changes nothing.
pub proof fn lemma_intersect_diff<S: Copy>(t: Intersect<S>, d: IntersectDiff<S>)
    ensures
        d.factor matches Some(x) ==> t.applied(d).factor == x,
        d.factor is None ==> t.applied(d).factor == t.factor,
        d.factor is Some ==> d.has_changes(),
        !d.has_changes() ==> t.applied(d) == t,
{
}

/// Applying a [`SubtractDiff`] gives each field that the diff sets the diff's
/// value and leaves every other field as it was; a diff that sets a field is
/// kept by `into_option`, and one that `into_option` drops changes nothing.
pub proof fn lemma_subtract_diff<S: Copy>(t: Subtract<S>, d: SubtractDiff<S>)
    ensures
        d.factor matches Some(x) ==> t.applied(d).factor == x,
        d.factor is None ==> t.applied(d).factor == t.factor,
        d.factor is Some ==> d.has_changes(),
        !d.has_changes() ==> t.applied(d) == t,
{
}

/// The ten shapes are primitives that take no children; `Union`,
/// `Intersect` and `Subtract` are operations that take children. Each kind
/// is shown under its own name.
pub proof fn lemma_kinds<S, V>(d: NodeData<S, V>)
    ensures
        match d {
            NodeData::Union(_) | NodeData::Intersect(_) | NodeData::Subtract(_) => {
                &&& d.spec_category() == NodeCategory::Operation
                &&& d.spec_can_have_children()
            },
            _ => {
                &&& d.spec_category() == NodeCategory::Primitive
                &&& !d.spec_can_have_children()
            },
        },
        d.spec_name() == match d {
            NodeData::Sphere(_) => "Sphere"@,
            NodeData::Cylinder(_) => "Cylinder"@,
            NodeData::Torus(_) => "Torus"@,
            NodeData::Plane(_) => "Plane"@,
            NodeData::Capsule(_) => "Capsule"@,
            NodeData::TaperedCapsule(_) => "Tapered Capsule"@,
            NodeData::Cone(_) => "Cone"@,
            NodeData::Box(_) => "Box"@,
            NodeData::TorusSector(_) => "Torus Sector"@,
            NodeData::BiconvexLens(_) => "Biconvex Lens"@,
            NodeData::Union(_) => "Union"@,
            NodeData::Intersect(_) => "Intersect"@,
            NodeData::Subtract(_) => "Subtract"@,
        },
{
}

/// A diff of the node data's own kind applies that kind's diff to its
/// fields (see the laws of each kind's diff), and changes something exactly
/// when that kind's diff does; a diff of another kind changes nothing.
pub proof fn lemma_node_data_diff_kinds<S: Copy, V: Copy>(d: NodeData<S, V>, diff: NodeDataDiff<S, V>)
    ensures
        match (d, diff) {
            (NodeData::Sphere(x), NodeDataDiff::SphereDiff(c)) => {
                &&& d.applied(diff) == NodeData::<S, V>::Sphere(x.applied(c))
                &&& diff.has_changes() == c.has_changes()
            },
            (NodeData::Cylinder(x), NodeDataDiff::CylinderDiff(c)) => {
                &&& d.applied(diff) == NodeData::<S, V>::Cylinder(x.applied(c))
                &&& diff.has_changes() == c.has_changes()
            },
            (NodeData::Torus(x), NodeDataDiff::TorusDiff(c)) => {
                &&& d.applied(diff) == NodeData::<S, V>::Torus(x.applied(c))
                &&& diff.has_changes() == c.has_changes()
            },
            (NodeData::Plane(x), NodeDataDiff::PlaneDiff(c)) => {
                &&& d.applied(diff) == NodeData::<S, V>::Plane(x.applied(c))
                &&& diff.has_changes() == c.has_changes()
            },
            (NodeData::Capsule(x), NodeDataDiff::CapsuleDiff(c)) => {
                &&& d.applied(diff) == NodeData::<S, V>::Capsule(x.applied(c))
                &&& diff.has_changes() == c.has_changes()
            },
            (NodeData::TaperedCapsule(x), NodeDataDiff::TaperedCapsuleDiff(c)) => {
                &&& d.applied(diff) == NodeData::<S, V>::TaperedCapsule(x.applied(c))
                &&& diff.has_changes() == c.has_changes()
            },
            (NodeData::Cone(x), NodeDataDiff::ConeDiff(c)) => {
                &&& d.applied(diff) == NodeData::<S, V>::Cone(x.applied(c))
                &&& diff.has_changes() == c.has_changes()
            },
            (NodeData::Box(x), NodeDataDiff::BoxDiff(c)) => {
                &&& d.applied(diff) == NodeData::<S, V>::Box(x.applied(c))
                &&& diff.has_changes() == c.has_changes()
            },
            (NodeData::TorusSector(x), NodeDataDiff::TorusSectorDiff(c)) => {
                &&& d.applied(diff) == NodeData::<S, V>::TorusSector(x.applied(c))
                &&& diff.has_changes() == c.has_changes()
            },
            (NodeData::BiconvexLens(x), NodeDataDiff::BiconvexLensDiff(c)) => {
                &&& d.applied(diff) == NodeData::<S, V>::BiconvexLens(x.applied(c))
                &&& diff.has_changes() == c.has_changes()
            },
            (NodeData::Union(x), NodeDataDiff::UnionDiff(c)) => {
                &&& d.applied(diff) == NodeData::<S, V>::Union(x.applied(c))
                &&& diff.has_changes() == c.has_changes()
            },
            (NodeData::Intersect(x), NodeDataDiff::IntersectDiff(c)) => {
                &&& d.applied(diff) == NodeData::<S, V>::Intersect(x.applied(c))
                &&& diff.has_changes() == c.has_changes()
            },
            (NodeData::Subtract(x), NodeDataDiff::SubtractDiff(c)) => {
                &&& d.applied(diff) == NodeData::<S, V>::Subtract(x.applied(c))
                &&& diff.has_changes() == c.has_changes()
            },
            _ => d.applied(diff) == d,
        },
{
}

} // verus!
