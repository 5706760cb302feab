//! Nodes of a model: their placement, colour, parameters and child slots,
//! and diffs that change them.
//!
//! Scalars have type `S`, vectors type `V` and rotations type `Q`; they are
//! carried and replaced, never computed with.

use vstd::prelude::*;

use crate::node_data::{NodeData, NodeDataDiff};

verus! {

/// Identifies a node of a model.
#[derive(Debug, Clone, Copy, PartialEq, Eq, Hash, Structural)]
pub struct NodeId(pub u32);

/// Where a node sits: a translation, a rotation and a uniform scale.
#[derive(Debug, Clone, Copy, PartialEq)]
pub struct Transform<S, V, Q> {
    pub translation: V,
    pub rotation: Q,
    pub scale: S,
}

/// A change to some of the parts of a [`Transform`]; `None` leaves a part as it is.
#[derive(Debug, Clone, Copy, PartialEq)]
pub struct TransformDiff<S, V, Q> {
    pub translation: Option<V>,
    pub rotation: Option<Q>,
    pub scale: Option<S>,
}

impl<S: Copy, V: Copy, Q: Copy> TransformDiff<S, V, Q> {
    /// Whether the diff changes any part.
    pub open spec fn has_changes(&self) -> bool {
        self.translation is Some || self.rotation is Some || self.scale is Some
    }

    /// The diff itself when it changes something, else `None`.
    pub fn into_option(self) -> (r: Option<Self>)
        ensures
            r == (if self.has_changes() { Some(self) } else { None }),
    {
        let has_changes = self.translation.is_some() || self.rotation.is_some()
            || self.scale.is_some();
        if has_changes {
            Some(self)
        } else {
            None
        }
    }

    /// The diff that sets every part to that of `t`.
    pub open spec fn spec_from_transform(t: Transform<S, V, Q>) -> Self {
        TransformDiff {
            translation: Some(t.translation),
            rotation: Some(t.rotation),
            scale: Some(t.scale),
        }
    }
}

impl<S: Copy, V: Copy, Q: Copy> Transform<S, V, Q> {
    /// The transform after `diff` is applied.
    pub open spec fn applied(self, diff: TransformDiff<S, V, Q>) -> Self {
        Transform {
            translation: diff.translation.unwrap_or(self.translation),
            rotation: diff.rotation.unwrap_or(self.rotation),
            scale: diff.scale.unwrap_or(self.scale),
        }
    }

    pub fn apply(&mut self, diff: TransformDiff<S, V, Q>)
        ensures
            *final(self) == old(self).applied(diff),
    {
        self.translation = diff.translation.unwrap_or(self.translation);
        self.rotation = diff.rotation.unwrap_or(self.rotation);
        self.scale = diff.scale.unwrap_or(self.scale);
    }
}

impl<S: Copy, V: Copy, Q: Copy> From<Transform<S, V, Q>> for TransformDiff<S, V, Q> {
    fn from(t: Transform<S, V, Q>) -> (r: Self) {
        TransformDiff { translation: Some(t.translation), rotation: Some(t.rotation), scale: Some(t.scale) }
    }
}

impl<S: Copy, V: Copy, Q: Copy> vstd::std_specs::convert::FromSpecImpl<Transform<S, V, Q>> for TransformDiff<S, V, Q> {
    open spec fn obeys_from_spec() -> bool {
        true
    }

    open spec fn from_spec(t: Transform<S, V, Q>) -> Self {
        TransformDiff::<S, V, Q>::spec_from_transform(t)
    }
}

/// A node of a model. Its children are slots: a slot holds the id of a child
/// node or is empty.
#[derive(Debug, PartialEq)]
pub struct Node<S, V, Q> {
    pub id: NodeId,
    pub rgb: (S, S, S),
    pub transform: Transform<S, V, Q>,
    pub data: NodeData<S, V>,
    pub children: Vec<Option<NodeId>>,
}

/// A change to some of the parts of a [`Node`]; `None` leaves a part as it is.
#[derive(Debug, PartialEq)]
pub struct NodeDiff<S, V, Q> {
    pub rgb: Option<(S, S, S)>,
    pub transform: Option<TransformDiff<S, V, Q>>,
    pub data: Option<NodeDataDiff<S, V>>,
    pub children: Option<Vec<Option<NodeId>>>,
}

impl<S, V, Q> Default for NodeDiff<S, V, Q> {
    fn default() -> (r: Self)
        ensures
            r.rgb is None,
            r.transform is None,
            r.data is None,
            r.children is None,
    {
        NodeDiff { rgb: None, transform: None, data: None, children: None }
    }
}

impl<S, V, Q> NodeDiff<S, V, Q> {
    /// Whether the diff changes any part.
    pub open spec fn has_changes(&self) -> bool {
        self.rgb is Some || self.transform is Some || self.data is Some || self.children is Some
    }

    /// The diff itself when it changes something, else `None`.
    pub fn into_option(self) -> (r: Option<Self>)
        ensures
            r == (if self.has_changes() { Some(self) } else { None }),
    {
        let has_changes = self.rgb.is_some() || self.transform.is_some() || self.data.is_some()
            || self.children.is_some();
        if has_changes {
            Some(self)
        } else {
            None
        }
    }

    /// Whether the diff sets the child slots to `children` and nothing else.
    pub open spec fn sets_only_children(&self, children: Seq<Option<NodeId>>) -> bool {
        &&& self.rgb is None
        &&& self.transform is None
        &&& self.data is None
        &&& self.children matches Some(c) && c@ == children
    }
}


/// `s` with empty slots appended until it has at least `n` slots.
pub open spec fn padded(s: Seq<Option<NodeId>>, n: nat) -> Seq<Option<NodeId>> {
    if s.len() >= n {
        s
    } else {
        s + Seq::new((n - s.len()) as nat, |i: int| None::<NodeId>)
    }
}

/// `s` with every slot that holds `id` emptied.
pub open spec fn without_child(s: Seq<Option<NodeId>>, id: NodeId) -> Seq<Option<NodeId>> {
    s.map_values(|c: Option<NodeId>| if c == Some(id) { None } else { c })
}

/// `s` without its trailing empty slots.
pub open spec fn trimmed(s: Seq<Option<NodeId>>) -> Seq<Option<NodeId>>
    decreases s.len(),
{
    if s.len() > 0 && s.last() is None {
        trimmed(s.drop_last())
    } else {
        s
    }
}

/// Whether `i` is the first slot of `s` that holds `c`.
pub open spec fn is_first_slot_of(s: Seq<Option<NodeId>>, i: int, c: Option<NodeId>) -> bool {
    &&& 0 <= i < s.len()
    &&& s[i] == c
    &&& forall|j: int| 0 <= j < i ==> s[j] != c
}

/// `s` with the first slot that holds `old_id` made to hold `new_id`; `s`
/// itself when no slot holds `old_id`.
pub open spec fn with_child_replaced(
    s: Seq<Option<NodeId>>,
    old_id: NodeId,
    new_id: NodeId,
) -> Seq<Option<NodeId>> {
    if exists|i: int| is_first_slot_of(s, i, Some(old_id)) {
        s.update(choose|i: int| is_first_slot_of(s, i, Some(old_id)), Some(new_id))
    } else {
        s
    }
}

/// A slot-by-slot copy of `s`.
fn copy_slots(s: &Vec<Option<NodeId>>) -> (r: Vec<Option<NodeId>>)
    ensures
        r@ == s@,
{
    let mut r: Vec<Option<NodeId>> = Vec::new();
    let mut i: usize = 0;
    while i < s.len()
        invariant
            i <= s.len(),
            r@ == s@.take(i as int),
        decreases s.len() - i,
    {
        r.push(s[i]);
        i = i + 1;
        assert(r@ =~= s@.take(i as int));
    }
    assert(s@.take(s.len() as int) =~= s@);
    r
}

proof fn lemma_trimmed_after_last(s: Seq<Option<NodeId>>, k: int)
    requires
        0 <= k < s.len(),
        s[k] is Some,
        forall|j: int| k < j < s.len() ==> s[j] is None,
    ensures
        trimmed(s) == s.take(k + 1),
    decreases s.len(),
{
    if s.len() == k + 1 {
        assert(s.take(k + 1) =~= s);
    } else {
        lemma_trimmed_after_last(s.drop_last(), k);
        assert(s.drop_last().take(k + 1) =~= s.take(k + 1));
    }
}

proof fn lemma_trimmed_all_empty(s: Seq<Option<NodeId>>)
    requires
        forall|j: int| 0 <= j < s.len() ==> s[j] is None,
    ensures
        trimmed(s) == Seq::<Option<NodeId>>::empty(),
    decreases s.len(),
{
    if s.len() > 0 {
        lemma_trimmed_all_empty(s.drop_last());
    } else {
        assert(s =~= Seq::<Option<NodeId>>::empty());
    }
}

impl<S: Copy, V: Copy, Q: Copy> Node<S, V, Q> {
    /// A node with no children.
    pub fn new(id: NodeId, data: NodeData<S, V>, rgb: (S, S, S), transform: Transform<S, V, Q>) -> (r: Self)
        ensures
            r.id == id,
            r.data == data,
            r.rgb == rgb,
            r.transform == transform,
            r.children@ == Seq::<Option<NodeId>>::empty(),
    {
        Node { id, rgb, transform, data, children: Vec::new() }
    }

    /// Puts `child_id` in slot `index`, adding empty slots first where there
    /// are too few. Returns a diff that sets the new slots.
    pub fn add_child(&mut self, index: usize, child_id: NodeId) -> (r: NodeDiff<S, V, Q>)
        requires
            index < usize::MAX,
        ensures
            final(self).children@ == padded(old(self).children@, (index + 1) as nat).update(
                index as int,
                Some(child_id),
            ),
            final(self).id == old(self).id,
            final(self).rgb == old(self).rgb,
            final(self).transform == old(self).transform,
            final(self).data == old(self).data,
            r.sets_only_children(final(self).children@),
    {
        let ghost old_children = self.children@;
        let len = self.children.len();
        let target = if len > index + 1 { len } else { index + 1 };
        while self.children.len() < target
            invariant
                old_children.len() <= self.children.len() <= target,
                target == (if old_children.len() > index + 1 { old_children.len() } else { (index + 1) as nat }),
                self.children@ == padded(old_children, self.children.len() as nat),
                self.id == old(self).id,
                self.rgb == old(self).rgb,
                self.transform == old(self).transform,
                self.data == old(self).data,
            decreases target - self.children.len(),
        {
            self.children.push(None);
            assert(self.children@ =~= padded(old_children, self.children.len() as nat));
        }
        assert(self.children@ =~= padded(old_children, (index + 1) as nat));
        self.children.set(index, Some(child_id));
        NodeDiff { children: Some(copy_slots(&self.children)), ..Default::default() }
    }

    /// Empties every slot that holds `to_remove_id`, then drops the trailing
    /// empty slots. Returns a diff that sets the new slots.
    pub fn remove_child(&mut self, to_remove_id: NodeId) -> (r: NodeDiff<S, V, Q>)
        ensures
            final(self).children@ == trimmed(without_child(old(self).children@, to_remove_id)),
            final(self).id == old(self).id,
            final(self).rgb == old(self).rgb,
            final(self).transform == old(self).transform,
            final(self).data == old(self).data,
            r.sets_only_children(final(self).children@),
    {
        let ghost emptied = without_child(self.children@, to_remove_id);
        let mut i: usize = 0;
        while i < self.children.len()
            invariant
                i <= self.children.len(),
                self.children.len() == emptied.len(),
                forall|j: int| 0 <= j < i ==> self.children@[j] == emptied[j],
                forall|j: int| i <= j < self.children.len() ==> self.children@[j] == old(self).children@[j],
                emptied == without_child(old(self).children@, to_remove_id),
                self.id == old(self).id,
                self.rgb == old(self).rgb,
                self.transform == old(self).transform,
                self.data == old(self).data,
            decreases self.children.len() - i,
        {
            if self.children[i] == Some(to_remove_id) {
                self.children.set(i, None);
            }
            i = i + 1;
        }
        assert(self.children@ =~= emptied);
        // Find the last filled slot.
        let mut k: usize = self.children.len();
        let mut found = false;
        while k > 0 && !found
            invariant
                k <= self.children.len(),
                self.children@ == emptied,
                found ==> k < self.children.len() && self.children@[k as int] is Some,
                forall|j: int| k < j < self.children.len() ==> self.children@[j] is None,
                !found ==> forall|j: int| k <= j < self.children.len() ==> self.children@[j] is None,
            decreases k + (if found { 0int } else { 1int }),
        {
            if self.children[k - 1].is_some() {
                k = k - 1;
                found = true;
            } else {
                k = k - 1;
            }
        }
        if found {
            proof {
                lemma_trimmed_after_last(emptied, k as int);
            }
            self.children.truncate(k + 1);
            assert(self.children@ =~= emptied.take(k + 1));
        } else {
            proof {
                lemma_trimmed_all_empty(emptied);
            }
        }
        let ghost cur = self.children@;
        assert(found ==> cur == trimmed(emptied) && cur.len() > 0 && cur.last() is Some);
        assert(!found ==> trimmed(emptied) == Seq::<Option<NodeId>>::empty());
        let mut all_empty = true;
        let mut m: usize = 0;
        while m < self.children.len()
            invariant
                m <= self.children.len(),
                self.children@ == cur,
                all_empty <==> forall|j: int| 0 <= j < m ==> self.children@[j] is None,
            decreases self.children.len() - m,
        {
            if self.children[m].is_some() {
                all_empty = false;
            }
            m = m + 1;
        }
        if all_empty {
            self.children.clear();
            assert(self.children@ =~= trimmed(emptied)) by {
                if found {
                    assert(cur[cur.len() - 1] is None);
                }
            }
        }
        NodeDiff { children: Some(copy_slots(&self.children)), ..Default::default() }
    }

    /// Makes the first slot that holds `old_child_id` hold `new_child_id`.
    /// Returns a diff that sets the new slots.
    pub fn replace_child(&mut self, old_child_id: NodeId, new_child_id: NodeId) -> (r: NodeDiff<S, V, Q>)
        ensures
            final(self).children@ == with_child_replaced(old(self).children@, old_child_id, new_child_id),
            final(self).id == old(self).id,
            final(self).rgb == old(self).rgb,
            final(self).transform == old(self).transform,
            final(self).data == old(self).data,
            r.sets_only_children(final(self).children@),
    {
        let ghost s = self.children@;
        let mut i: usize = 0;
        let mut done = false;
        while i < self.children.len() && !done
            invariant
                i <= self.children.len(),
                s == old(self).children@,
                !done ==> self.children@ == s,
                !done ==> forall|j: int| 0 <= j < i ==> s[j] != Some(old_child_id),
                done ==> self.children@ == with_child_replaced(s, old_child_id, new_child_id),
                self.id == old(self).id,
                self.rgb == old(self).rgb,
                self.transform == old(self).transform,
                self.data == old(self).data,
            decreases self.children.len() - i + (if done { 0int } else { 1int }),
        {
            if self.children[i] == Some(old_child_id) {
                assert(is_first_slot_of(s, i as int, Some(old_child_id)));
                let ghost c = choose|c: int| is_first_slot_of(s, c, Some(old_child_id));
                assert(c == i as int) by {
                    if c < i as int {
                        assert(s[c] != Some(old_child_id));
                    } else if c > i as int {
                        assert(s[i as int] != Some(old_child_id));
                    }
                }
                self.children.set(i, Some(new_child_id));
                done = true;
            } else {
                i = i + 1;
            }
        }
        if !done {
            assert(!exists|c: int| is_first_slot_of(s, c, Some(old_child_id))) by {
                if exists|c: int| is_first_slot_of(s, c, Some(old_child_id)) {
                    let c = choose|c: int| is_first_slot_of(s, c, Some(old_child_id));
                    assert(s[c] != Some(old_child_id));
                }
            }
        }
        NodeDiff { children: Some(copy_slots(&self.children)), ..Default::default() }
    }

    /// The node after `diff` is applied.
    pub open spec fn applied(self, diff: NodeDiff<S, V, Q>) -> Self {
        Node {
            id: self.id,
            rgb: diff.rgb.unwrap_or(self.rgb),
            transform: match diff.transform {
                Some(d) => self.transform.applied(d),
                None => self.transform,
            },
            data: match diff.data {
                Some(d) => self.data.applied(d),
                None => self.data,
            },
            children: match diff.children {
                Some(c) => c,
                None => self.children,
            },
        }
    }

    /// Sets every part that `diff` changes.
    pub fn apply(&mut self, diff: NodeDiff<S, V, Q>)
        ensures
            *final(self) == old(self).applied(diff),
    {
        if let Some(rgb) = diff.rgb {
            self.rgb = rgb;
        }
        if let Some(d) = diff.transform {
            self.transform.apply(d);
        }
        if let Some(d) = diff.data {
            self.data.apply(d);
        }
        if let Some(children) = diff.children {
            self.children = children;
        }
    }
}


/// The diff made from a transform sets every part to that transform's, so
/// applying it to any transform gives that transform.
pub proof fn lemma_full_diff_sets_transform<S: Copy, V: Copy, Q: Copy>(
    any: Transform<S, V, Q>,
    t: Transform<S, V, Q>,
)
    ensures
        any.applied(TransformDiff::spec_from_transform(t)) == t,
{
}

/// Applying the same transform diff twice has the effect of applying it once,
/// and a diff that changes nothing leaves the transform as it is.
pub proof fn lemma_transform_apply_laws<S: Copy, V: Copy, Q: Copy>(
    t: Transform<S, V, Q>,
    diff: TransformDiff<S, V, Q>,
)
    ensures
        t.applied(diff).applied(diff) == t.applied(diff),
        !diff.has_changes() ==> t.applied(diff) == t,
{
}

/// After a child is removed, no slot holds it, and the last slot, if there
/// is one, is filled.
pub proof fn lemma_removed_child_is_gone(s: Seq<Option<NodeId>>, id: NodeId)
    ensures
        forall|i: int| 0 <= i < trimmed(without_child(s, id)).len() ==> trimmed(without_child(s, id))[i] != Some(id),
        trimmed(without_child(s, id)).len() > 0 ==> trimmed(without_child(s, id)).last() is Some,
{
    let w = without_child(s, id);
    lemma_trimmed_is_prefix(w);
    assert forall|i: int| 0 <= i < trimmed(w).len() implies trimmed(w)[i] != Some(id) by {
        assert(trimmed(w)[i] == w[i]);
    }
}

proof fn lemma_trimmed_is_prefix(s: Seq<Option<NodeId>>)
    ensures
        trimmed(s).len() <= s.len(),
        forall|i: int| 0 <= i < trimmed(s).len() ==> trimmed(s)[i] == s[i],
        trimmed(s).len() > 0 ==> trimmed(s).last() is Some,
    decreases s.len(),
{
    if s.len() > 0 && s.last() is None {
        lemma_trimmed_is_prefix(s.drop_last());
        assert forall|i: int| 0 <= i < trimmed(s).len() implies trimmed(s)[i] == s[i] by {
            assert(s.drop_last()[i] == s[i]);
        }
    }
}

proof fn lemma_trimmed_of_padded(s: Seq<Option<NodeId>>, n: nat)
    requires
        s.len() == 0 || s.last() is Some,
    ensures
        trimmed(padded(s, n)) == s,
    decreases n,
{
    if padded(s, n).len() > s.len() {
        let p = padded(s, n);
        assert(p.last() is None);
        assert(p.drop_last() =~= padded(s, (n - 1) as nat));
        lemma_trimmed_of_padded(s, (n - 1) as nat);
    } else {
        assert(padded(s, n) =~= s);
    }
}

/// Removing a child that was just put in an empty or new slot gives back
/// the slots as they were, when the child was in no slot before and the last
/// slot was filled (or there was none).
pub proof fn lemma_remove_undoes_add(s: Seq<Option<NodeId>>, index: nat, child: NodeId)
    requires
        s.len() == 0 || s.last() is Some,
        forall|i: int| 0 <= i < s.len() ==> s[i] != Some(child),
        index >= s.len() || s[index as int] is None,
    ensures
        trimmed(without_child(padded(s, index + 1).update(index as int, Some(child)), child)) == s,
{
    let p = padded(s, index + 1);
    let added = p.update(index as int, Some(child));
    assert(without_child(added, child) =~= p);
    lemma_trimmed_of_padded(s, index + 1);
}

/// The diff that a child operation returns, applied to the node as it was,
/// gives the node as it is.
pub proof fn lemma_children_diff_replays<S: Copy, V: Copy, Q: Copy>(
    before: Node<S, V, Q>,
    after: Node<S, V, Q>,
    diff: NodeDiff<S, V, Q>,
)
    requires
        diff.sets_only_children(after.children@),
        after.id == before.id,
        after.rgb == before.rgb,
        after.transform == before.transform,
        after.data == before.data,
    ensures
        before.applied(diff).id == after.id,
        before.applied(diff).rgb == after.rgb,
        before.applied(diff).transform == after.transform,
        before.applied(diff).data == after.data,
        before.applied(diff).children@ == after.children@,
{
}

/// Applying a [`TransformDiff`] gives each part that the diff sets the
/// diff's value and leaves the other parts as they were; a diff that sets a
/// part is kept by `into_option`, and one that `into_option` drops changes
/// nothing.
pub proof fn lemma_transform_diff<S: Copy, V: Copy, Q: Copy>(t: Transform<S, V, Q>, d: TransformDiff<S, V, Q>)
    ensures
        d.translation matches Some(x) ==> t.applied(d).translation == x,
        d.translation is None ==> t.applied(d).translation == t.translation,
        d.rotation matches Some(x) ==> t.applied(d).rotation == x,
        d.rotation is None ==> t.applied(d).rotation == t.rotation,
        d.scale matches Some(x) ==> t.applied(d).scale == x,
        d.scale is None ==> t.applied(d).scale == t.scale,
        d.translation is Some || d.rotation is Some || d.scale is Some ==> d.has_changes(),
        !d.has_changes() ==> t.applied(d) == t,
{
}

/// Applying a [`NodeDiff`] keeps the node's id, gives it the colour and
/// child slots that the diff sets, applies the transform and data diffs it
/// carries, and leaves every part the diff does not set as it was. A diff
/// that sets any part is kept by `into_option`; one that `into_option` drops
/// leaves every node as it is.
pub proof fn lemma_node_diff<S: Copy, V: Copy, Q: Copy>(n: Node<S, V, Q>, d: NodeDiff<S, V, Q>)
    ensures
        n.applied(d).id == n.id,
        d.rgb matches Some(c) ==> n.applied(d).rgb == c,
        d.rgb is None ==> n.applied(d).rgb == n.rgb,
        d.transform matches Some(td) ==> n.applied(d).transform == n.transform.applied(td),
        d.transform is None ==> n.applied(d).transform == n.transform,
        d.data matches Some(dd) ==> n.applied(d).data == n.data.applied(dd),
        d.data is None ==> n.applied(d).data == n.data,
        d.children matches Some(c) ==> n.applied(d).children@ == c@,
        d.children is None ==> n.applied(d).children@ == n.children@,
        d.rgb is Some || d.transform is Some || d.data is Some || d.children is Some ==> d.has_changes(),
        !d.has_changes() ==> n.applied(d) == n,
{
}

/// Putting a child in slot `index` gives a slot list that holds the child
/// at `index`, keeps every other slot that was there, and has empty slots
/// wherever new ones were needed; it is as long as the old list, or
/// `index + 1` if that is longer.
pub proof fn lemma_added_child_slots(s: Seq<Option<NodeId>>, index: nat, child: NodeId)
    ensures
        ({
            let r = padded(s, index + 1).update(index as int, Some(child));
            &&& r.len() == (if s.len() > index { s.len() } else { index + 1 })
            &&& r[index as int] == Some(child)
            &&& forall|j: int| 0 <= j < s.len() && j != index ==> r[j] == s[j]
            &&& forall|j: int| s.len() <= j < r.len() && j != index ==> r[j] is None
        }),
{
}

proof fn lemma_trimmed_drops_only_empty(s: Seq<Option<NodeId>>)
    ensures
        forall|i: int| trimmed(s).len() <= i < s.len() ==> s[i] is None,
    decreases s.len(),
{
    if s.len() > 0 && s.last() is None {
        lemma_trimmed_drops_only_empty(s.drop_last());
        assert forall|i: int| trimmed(s).len() <= i < s.len() implies s[i] is None by {
            if i < s.len() - 1 {
                assert(s.drop_last()[i] == s[i]);
            }
        }
    }
}

/// Removing a child keeps every other child in its slot; only slots that
/// held the removed child are emptied, and only empty slots at the end are
/// dropped.
pub proof fn lemma_removed_child_keeps_others(s: Seq<Option<NodeId>>, id: NodeId)
    ensures
        ({
            let r = trimmed(without_child(s, id));
            &&& r.len() <= s.len()
            &&& forall|i: int| 0 <= i < r.len() ==> r[i] == (if s[i] == Some(id) { None } else { s[i] })
            &&& forall|i: int| 0 <= i < s.len() && s[i] is Some && s[i] != Some(id) ==> i < r.len() && r[i] == s[i]
        }),
{
    let w = without_child(s, id);
    lemma_trimmed_is_prefix(w);
    lemma_trimmed_drops_only_empty(w);
    assert(w.len() == s.len());
    assert forall|i: int| 0 <= i < trimmed(w).len() implies trimmed(w)[i] == (if s[i] == Some(id) {
        None
    } else {
        s[i]
    }) by {
        assert(trimmed(w)[i] == w[i]);
    }
    assert forall|i: int| 0 <= i < s.len() && s[i] is Some && s[i] != Some(id) implies i < trimmed(w).len()
        && trimmed(w)[i] == s[i] by {
        assert(w[i] == s[i]);
    }
}

/// Replacing a child puts the new child in the first slot that held the old
/// one and changes nothing else; when no slot holds the old child, nothing
/// changes.
pub proof fn lemma_replaced_child_slots(s: Seq<Option<NodeId>>, old_id: NodeId, new_id: NodeId)
    ensures
        !s.contains(Some(old_id)) ==> with_child_replaced(s, old_id, new_id) == s,
        s.contains(Some(old_id)) ==> exists|k: int|
            0 <= k < s.len() && s[k] == Some(old_id) && (forall|j: int| 0 <= j < k ==> s[j] != Some(old_id))
                && with_child_replaced(s, old_id, new_id) == s.update(k, Some(new_id)),
{
    if s.contains(Some(old_id)) {
        let i = choose|i: int| 0 <= i < s.len() && s[i] == Some(old_id);
        let k = s.index_of_first(Some(old_id));
        s.index_of_first_ensures(Some(old_id));
        let k = k->0;
        assert(is_first_slot_of(s, k, Some(old_id)));
        let c = choose|c: int| is_first_slot_of(s, c, Some(old_id));
        assert(c == k) by {
            if c < k {
                assert(s[c] != Some(old_id));
            }
            if k < c {
                assert(s[k] != Some(old_id));
            }
        }
    } else {
        if exists|i: int| is_first_slot_of(s, i, Some(old_id)) {
            let i = choose|i: int| is_first_slot_of(s, i, Some(old_id));
            assert(s.contains(Some(old_id)));
        }
    }
}

} // verus!
