//! The authoritative model graph: the nodes of a model by id, the root node,
//! and the generator of fresh node ids.

use std::collections::{HashMap, HashSet};
use std::collections::hash_map::Entry;

use vstd::prelude::*;

use crate::node::{Node, NodeId, Transform};
use crate::node_data::NodeData;

verus! {

broadcast use vstd::std_specs::hash::group_hash_axioms;

/// Hands out node ids: ids given back are reused first, otherwise the ids
/// count up from 0.
#[derive(Debug)]
pub struct IdGenerator {
    last_id: NodeId,
    returned_ids: HashSet<u32>,
}

impl IdGenerator {
    /// The id that is handed out next when no id was given back.
    pub closed spec fn next(&self) -> u32 {
        self.last_id.0
    }

    /// The ids given back, which are handed out again first.
    pub closed spec fn returned(&self) -> Set<u32> {
        self.returned_ids@
    }

    /// Every id given back lies below the next fresh id.
    pub open spec fn wf(&self) -> bool {
        forall|k: u32| #[trigger] self.returned().contains(k) ==> k < self.next()
    }

    pub fn new() -> (r: IdGenerator)
        ensures
            r.next() == 0,
            r.returned() == Set::<u32>::empty(),
            r.wf(),
    {
        IdGenerator { last_id: NodeId(0), returned_ids: HashSet::new() }
    }

    /// A generator in a given state: `last_id` is handed out next, after the
    /// ids in `returned_ids`.
    pub fn from_parts(last_id: NodeId, returned_ids: HashSet<u32>) -> (r: IdGenerator)
        ensures
            r.next() == last_id.0,
            r.returned() == returned_ids@,
    {
        IdGenerator { last_id, returned_ids }
    }

    /// Hands out an id: one that was given back, if any (which one is up to
    /// the set's iteration order), else the next fresh id.
    pub fn generate(&mut self) -> (r: NodeId)
        requires
            old(self).returned().is_empty() ==> old(self).next() < u32::MAX,
        ensures
            old(self).returned().is_empty() ==> {
                &&& r.0 == old(self).next()
                &&& final(self).next() == old(self).next() + 1
                &&& final(self).returned() == old(self).returned()
            },
            !old(self).returned().is_empty() ==> {
                &&& old(self).returned().contains(r.0)
                &&& final(self).next() == old(self).next()
                &&& final(self).returned() == old(self).returned().remove(r.0)
            },
            old(self).wf() ==> final(self).wf(),
    {
        if !self.returned_ids.is_empty() {
            let mut first: Option<u32> = None;
            for k in it: self.returned_ids.iter()
                invariant
                    first is Some ==> self.returned_ids@.contains(first->0),
                    it.index() > 0 ==> first is Some,
            {
                if first.is_none() {
                    first = Some(*k);
                }
            }
            let id = first.unwrap();
            self.returned_ids.remove(&id);
            NodeId(id)
        } else {
            let id = self.last_id;
            self.last_id = NodeId(self.last_id.0 + 1);
            id
        }
    }
}


/// A model: its nodes by id and its root node. A node is stored under the
/// integer of its id.
#[derive(Debug)]
pub struct Graph<S, V, Q> {
    nodes: HashMap<u32, Node<S, V, Q>>,
    root_node_id: Option<NodeId>,
    id_generator: IdGenerator,
}

impl<S: Copy, V: Copy, Q: Copy> Graph<S, V, Q> {
    /// The nodes, by the integer of their id.
    pub closed spec fn nodes(&self) -> Map<u32, Node<S, V, Q>> {
        self.nodes@
    }

    pub closed spec fn root(&self) -> Option<NodeId> {
        self.root_node_id
    }

    pub closed spec fn generator(&self) -> IdGenerator {
        self.id_generator
    }

    /// Each node is stored under its own id, and no id in use can be handed
    /// out again.
    pub open spec fn wf(&self) -> bool {
        &&& forall|k: u32| #[trigger] self.nodes().contains_key(k) ==> self.nodes()[k].id.0 == k
        &&& forall|k: u32|
            #[trigger] self.nodes().contains_key(k) ==> k < self.generator().next()
                && !self.generator().returned().contains(k)
        &&& self.generator().wf()
    }

    /// An empty model with no root.
    pub fn new_authoritative() -> (r: Self)
        ensures
            r.nodes() == Map::<u32, Node<S, V, Q>>::empty(),
            r.root() is None,
            r.generator().next() == 0,
            r.generator().returned() == Set::<u32>::empty(),
            r.wf(),
    {
        Graph { nodes: HashMap::new(), root_node_id: None, id_generator: IdGenerator::new() }
    }

    /// Adds a node with a fresh id, no children and colour `rgb`; returns its id.
    pub fn add(&mut self, data: NodeData<S, V>, transform: Transform<S, V, Q>, rgb: (S, S, S)) -> (r: NodeId)
        requires
            old(self).generator().returned().is_empty() ==> old(self).generator().next() < u32::MAX,
        ensures
            final(self).nodes().contains_key(r.0),
            final(self).nodes()[r.0].id == r,
            final(self).nodes()[r.0].data == data,
            final(self).nodes()[r.0].transform == transform,
            final(self).nodes()[r.0].rgb == rgb,
            final(self).nodes()[r.0].children@ == Seq::<Option<NodeId>>::empty(),
            final(self).nodes().remove(r.0) == old(self).nodes().remove(r.0),
            final(self).root() == old(self).root(),
            old(self).generator().returned().is_empty() ==> {
                &&& r.0 == old(self).generator().next()
                &&& final(self).generator().next() == old(self).generator().next() + 1
                &&& final(self).generator().returned() == old(self).generator().returned()
            },
            !old(self).generator().returned().is_empty() ==> {
                &&& old(self).generator().returned().contains(r.0)
                &&& final(self).generator().next() == old(self).generator().next()
                &&& final(self).generator().returned() == old(self).generator().returned().remove(r.0)
            },
            old(self).wf() ==> !old(self).nodes().contains_key(r.0) && final(self).wf(),
    {
        let id = self.id_generator.generate();
        let node = Node::new(id, data, rgb, transform);
        self.nodes.insert(id.0, node);
        proof {
            assert(self.nodes@.remove(id.0) =~= old(self).nodes@.remove(id.0));
        }
        id
    }

    /// The node with id `id`, if there is one.
    pub fn get(&self, id: NodeId) -> (r: Option<&Node<S, V, Q>>)
        ensures
            r is Some <==> self.nodes().contains_key(id.0),
            r matches Some(n) ==> *n == self.nodes()[id.0],
    {
        self.nodes.get(&id.0)
    }

    /// The node with id `id`, if there is one, to change in place.
    pub fn get_mut(&mut self, id: NodeId) -> (r: Option<&mut Node<S, V, Q>>)
        ensures
            r is Some <==> old(self).nodes().contains_key(id.0),
            r matches Some(n) ==> *n == old(self).nodes()[id.0],
            r is None ==> final(self).nodes() == old(self).nodes(),
            r matches Some(n) ==> final(self).nodes() == old(self).nodes().insert(id.0, *final(n)),
    {
        match self.nodes.entry(id.0) {
            Entry::Occupied(o) => Some(o.into_mut()),
            Entry::Vacant(_) => None,
        }
    }

    pub fn root_node_id(&self) -> (r: Option<NodeId>)
        ensures
            r == self.root(),
    {
        self.root_node_id
    }
}

} // verus!
