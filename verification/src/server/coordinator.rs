//! The coordinator: all peers, and the rooms by name.

use std::collections::HashMap;

use vstd::hash_map::StringHashMap;
use vstd::prelude::*;

verus! {

broadcast use vstd::std_specs::hash::group_hash_axioms;

/// What reaches the coordinator.
#[derive(Debug, Clone)]
pub enum CoordinatorMessage<P> {
    /// A peer connected; the handle reaches it.
    PeerJoin(u64, P),
    /// A peer's connection closed.
    PeerLeave(u64),
    /// A peer asks to join the room of the given name.
    PeerJoinRoom(u64, String),
}

/// One message that the coordinator sends after a message reaches it; it
/// sends them in the order they come.
#[derive(Debug)]
pub enum CoordinatorAction<P, R> {
    /// Tell this peer the room it is in from now on (none with `None`).
    SetPeerRoom(P, Option<R>),
    /// Tell this room that the peer with this number joined; the handle
    /// reaches the peer.
    RoomPeerJoin(R, u64, P),
}

/// All connected peers by number, and the rooms by name.
#[verifier::reject_recursive_types(R)]
pub struct Coordinator<P, R> {
    peers: HashMap<u64, P>,
    rooms: StringHashMap<R>,
}

impl<P: Clone, R: Clone> Coordinator<P, R> {
    /// The handles of the connected peers, by number.
    pub closed spec fn peer_map(&self) -> Map<u64, P> {
        self.peers@
    }

    /// The handles of the rooms, by name.
    pub closed spec fn room_map(&self) -> Map<Seq<char>, R> {
        self.rooms@
    }

    /// No peers and no rooms.
    pub fn new() -> (r: Self)
        ensures
            r.peer_map() == Map::<u64, P>::empty(),
            r.room_map() == Map::<Seq<char>, R>::empty(),
    {
        Coordinator { peers: HashMap::new(), rooms: StringHashMap::new() }
    }

    /// The handle of the connected peer with number `address`, if any.
    pub fn peer(&self, address: u64) -> (r: Option<&P>)
        ensures
            r is Some <==> self.peer_map().contains_key(address),
            r matches Some(p) ==> *p == self.peer_map()[address],
    {
        self.peers.get(&address)
    }

    /// What the coordinator does with `msg`, as the messages it sends, in
    /// order. A peer that connects is recorded; one that leaves is forgotten
    /// and told that it is in no room; one that asks to join a room is first
    /// told the room and then the room is told of the peer, after the room is
    /// made with `create_room` if there is none of that name yet.
    pub fn handle_message<F: FnOnce(String) -> R>(&mut self, msg: CoordinatorMessage<P>, create_room: F) -> (r:
        Vec<CoordinatorAction<P, R>>)
        requires
            msg matches CoordinatorMessage::PeerLeave(a) ==> old(self).peer_map().contains_key(a),
            msg matches CoordinatorMessage::PeerJoinRoom(a, name) ==> old(self).peer_map().contains_key(a)
                && call_requires(create_room, (name,)),
        ensures
            match msg {
                CoordinatorMessage::PeerJoin(address, peer) => {
                    &&& final(self).peer_map() == old(self).peer_map().insert(address, peer)
                    &&& final(self).room_map() == old(self).room_map()
                    &&& r@.len() == 0
                },
                CoordinatorMessage::PeerLeave(address) => {
                    &&& final(self).peer_map() == old(self).peer_map().remove(address)
                    &&& final(self).room_map() == old(self).room_map()
                    &&& r@.len() == 1
                    &&& r@[0] matches CoordinatorAction::SetPeerRoom(p, None) && p == old(self).peer_map()[address]
                },
                CoordinatorMessage::PeerJoinRoom(address, name) => {
                    &&& final(self).peer_map() == old(self).peer_map()
                    &&& if old(self).room_map().contains_key(name@) {
                        final(self).room_map() == old(self).room_map()
                    } else {
                        exists|made: R|
                            call_ensures(create_room, (name,), made) && final(self).room_map()
                                == old(self).room_map().insert(name@, made)
                    }
                    &&& r@.len() == 2
                    &&& r@[0] matches CoordinatorAction::SetPeerRoom(p, Some(room)) && cloned(
                        old(self).peer_map()[address],
                        p,
                    ) && cloned(final(self).room_map()[name@], room)
                    &&& r@[1] matches CoordinatorAction::RoomPeerJoin(room, a, p) && a == address && cloned(
                        final(self).room_map()[name@],
                        room,
                    ) && cloned(old(self).peer_map()[address], p)
                },
            },
    {
        let mut r: Vec<CoordinatorAction<P, R>> = Vec::new();
        match msg {
            CoordinatorMessage::PeerJoin(address, peer) => {
                self.peers.insert(address, peer);
            },
            CoordinatorMessage::PeerLeave(address) => {
                let peer = self.peers.remove(&address).unwrap();
                r.push(CoordinatorAction::SetPeerRoom(peer, None));
            },
            CoordinatorMessage::PeerJoinRoom(address, name) => {
                let stored = self.peers.get(&address).unwrap();
                let peer = stored.clone();
                let peer_again = stored.clone();
                let key = name.clone();
                if !self.rooms.contains_key(key.as_str()) {
                    let made = create_room(name);
                    self.rooms.insert(key.clone(), made);
                }
                let room = self.rooms.get(key.as_str()).unwrap();
                let for_peer = room.clone();
                let for_join = room.clone();
                r.push(CoordinatorAction::SetPeerRoom(peer, Some(for_peer)));
                r.push(CoordinatorAction::RoomPeerJoin(for_join, address, peer_again));
            },
        }
        r
    }
}

} // verus!
