//! A room: the peers that edit one model together.

use std::collections::HashMap;

use vstd::prelude::*;

verus! {

broadcast use vstd::std_specs::hash::group_hash_axioms;

/// What reaches a room.
#[derive(Debug, Clone)]
pub enum RoomMessage<P, C> {
    /// The peer with this number joined; the handle reaches it.
    PeerJoin(u64, P),
    /// The peer with this number left.
    PeerLeave(u64),
    /// A change that a peer asks for.
    GraphCommand(C),
    /// Time to save the model.
    Save,
}

/// What a room does after a message.
#[derive(Debug)]
pub enum RoomAction<C> {
    Nothing,
    /// Send the whole model to the peer with this number.
    Initialize(u64),
    /// Apply the command to the model and send each change that results to
    /// each of these peers.
    Broadcast(C, Vec<u64>),
    /// No peer is left: ask the coordinator to shut the room of this name down.
    RequestShutdown(String),
    /// Save the model.
    Save,
}

/// The peers of a room, by number.
#[derive(Debug)]
pub struct Room<P> {
    name: String,
    peers: HashMap<u64, P>,
}

impl<P> Room<P> {
    pub closed spec fn spec_name(&self) -> Seq<char> {
        self.name@
    }

    /// The handles of the peers in the room, by number.
    pub closed spec fn peer_map(&self) -> Map<u64, P> {
        self.peers@
    }

    /// An empty room of the given name.
    pub fn new(name: String) -> (r: Self)
        ensures
            r.spec_name() == name@,
            r.peer_map() == Map::<u64, P>::empty(),
    {
        Room { name, peers: HashMap::new() }
    }

    pub fn name(&self) -> (r: &String)
        ensures
            r@ == self.spec_name(),
    {
        &self.name
    }

    /// The handle of the peer with number `address`, if it is in the room.
    pub fn peer(&self, address: u64) -> (r: Option<&P>)
        ensures
            r is Some <==> self.peer_map().contains_key(address),
            r matches Some(p) ==> *p == self.peer_map()[address],
    {
        self.peers.get(&address)
    }

    /// The numbers of the peers in the room, each once.
    fn peer_numbers(&self) -> (r: Vec<u64>)
        ensures
            r@.to_set() == self.peer_map().dom(),
            r@.no_duplicates(),
    {
        let mut r: Vec<u64> = Vec::new();
        for k in it: self.peers.keys()
            invariant
                r@ == it.seq().take(it.index() as int).unref(),
        {
            r.push(*k);
        }
        assert(r@ =~= vstd::std_specs::iter::IteratorSpec::remaining(&vstd::std_specs::hash::spec_keys_iter(&self.peers)).unref());
        r
    }
}


impl<P> Room<P> {
    /// What the room does with `msg`: a joining peer is added and gets the
    /// whole model, a leaving peer is removed (and the last one to leave
    /// has the room shut down), a command goes out to every peer in the
    /// room, and a save is passed on.
    pub fn handle_message<C>(&mut self, msg: RoomMessage<P, C>) -> (r: RoomAction<C>)
        ensures
            final(self).spec_name() == old(self).spec_name(),
            match msg {
                RoomMessage::PeerJoin(address, peer) => {
                    &&& final(self).peer_map() == old(self).peer_map().insert(address, peer)
                    &&& r matches RoomAction::Initialize(a) && a == address
                },
                RoomMessage::PeerLeave(address) => {
                    &&& final(self).peer_map() == old(self).peer_map().remove(address)
                    &&& if final(self).peer_map().is_empty() {
                        r matches RoomAction::RequestShutdown(n) && n@ == old(self).spec_name()
                    } else {
                        r is Nothing
                    }
                },
                RoomMessage::GraphCommand(command) => {
                    &&& final(self).peer_map() == old(self).peer_map()
                    &&& r matches RoomAction::Broadcast(c, to) && c == command && to@.to_set()
                        == old(self).peer_map().dom() && to@.no_duplicates()
                },
                RoomMessage::Save => {
                    &&& final(self).peer_map() == old(self).peer_map()
                    &&& r is Save
                },
            },
    {
        match msg {
            RoomMessage::PeerJoin(address, peer) => {
                self.peers.insert(address, peer);
                RoomAction::Initialize(address)
            },
            RoomMessage::PeerLeave(address) => {
                self.peers.remove(&address);
                if self.peers.is_empty() {
                    RoomAction::RequestShutdown(self.name.clone())
                } else {
                    RoomAction::Nothing
                }
            },
            RoomMessage::GraphCommand(command) => {
                let to = self.peer_numbers();
                RoomAction::Broadcast(command, to)
            },
            RoomMessage::Save => RoomAction::Save,
        }
    }
}

} // verus!
