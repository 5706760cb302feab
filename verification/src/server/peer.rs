//! A peer: one connection to the server, and the room it is in.

use vstd::prelude::*;

use crate::protocol::{PeerIncomingMessage, PeerOutgoingMessage, RequestJoin};
use crate::server::coordinator::CoordinatorMessage;
use crate::server::room::RoomMessage;

verus! {

/// What reaches the task that serves a peer.
#[derive(Debug, Clone)]
pub enum PeerMessage<C, G, R> {
    /// The peer asks to join a room.
    RequestJoin(RequestJoin),
    /// The connection closed.
    Disconnect,
    /// The peer asks for a change to the model.
    GraphCommand(C),
    /// A change to the model that the peer must hear of.
    GraphChange(G),
    /// The room the peer is in from now on, if any.
    SetRoom(Option<R>),
}

/// What the reader of a peer's connection hands on after a read: what the
/// peer sent, as a message for the peer's task, and whether the reader stops.
/// A join request and a command are handed on and reading goes on; the end
/// of the stream (`None`) is a `Disconnect`, after which the reader stops.
pub fn read_step<C, G, R>(read: Option<PeerOutgoingMessage<C>>) -> (r: (PeerMessage<C, G, R>, bool))
    ensures
        match read {
            None => r.0 is Disconnect && r.1,
            Some(PeerOutgoingMessage::RequestJoin(req)) => (r.0 matches PeerMessage::RequestJoin(q) && q == req)
                && !r.1,
            Some(PeerOutgoingMessage::GraphCommand(command)) => (r.0 matches PeerMessage::GraphCommand(c) && c
                == command) && !r.1,
        },
{
    match read {
        None => (PeerMessage::Disconnect, true),
        Some(PeerOutgoingMessage::RequestJoin(req)) => (PeerMessage::RequestJoin(req), false),
        Some(PeerOutgoingMessage::GraphCommand(command)) => (PeerMessage::GraphCommand(command), false),
    }
}

/// What the task that serves a peer does after a message.
#[derive(Debug)]
pub enum PeerAction<C, G, R, P> {
    Nothing,
    /// Send this to the coordinator.
    ToCoordinator(CoordinatorMessage<P>),
    /// Send this to the room the peer is in.
    ToRoom(RoomMessage<P, C>),
    /// Send this to the room the peer was in until now.
    ToFormerRoom(R, RoomMessage<P, C>),
    /// Write this to the peer's connection.
    Write(PeerIncomingMessage<G>),
}

/// The peer with a given number and the room it is in.
#[derive(Debug)]
pub struct Peer<R> {
    address: u64,
    room: Option<R>,
}

impl<R> Peer<R> {
    pub closed spec fn spec_address(&self) -> u64 {
        self.address
    }

    pub closed spec fn spec_room(&self) -> Option<R> {
        self.room
    }

    /// A peer in no room.
    pub fn new(address: u64) -> (r: Self)
        ensures
            r.spec_address() == address,
            r.spec_room() is None,
    {
        Peer { address, room: None }
    }

    pub fn address(&self) -> (r: u64)
        ensures
            r == self.spec_address(),
    {
        self.address
    }

    /// The room the peer is in, if any.
    pub fn room(&self) -> (r: Option<&R>)
        ensures
            r is Some <==> self.spec_room() is Some,
            r matches Some(x) ==> *x == self.spec_room()->0,
    {
        match &self.room {
            Some(x) => Some(x),
            None => None,
        }
    }

    /// What the peer's task does with `msg`: a join request and a closed
    /// connection go to the coordinator, a command goes to the peer's room
    /// (and nowhere when it is in none), a change is written to the peer,
    /// and a new room replaces the old one, which hears that the peer left.
    pub fn handle_message<C, G, P>(&mut self, msg: PeerMessage<C, G, R>) -> (r: PeerAction<C, G, R, P>)
        ensures
            final(self).spec_address() == old(self).spec_address(),
            match msg {
                PeerMessage::RequestJoin(req) => {
                    &&& final(self).spec_room() == old(self).spec_room()
                    &&& r matches PeerAction::ToCoordinator(CoordinatorMessage::PeerJoinRoom(a, name))
                        && a == old(self).spec_address() && name == req.room
                },
                PeerMessage::Disconnect => {
                    &&& final(self).spec_room() == old(self).spec_room()
                    &&& r matches PeerAction::ToCoordinator(CoordinatorMessage::PeerLeave(a)) && a
                        == old(self).spec_address()
                },
                PeerMessage::GraphCommand(command) => {
                    &&& final(self).spec_room() == old(self).spec_room()
                    &&& if old(self).spec_room() is Some {
                        r matches PeerAction::ToRoom(RoomMessage::GraphCommand(c)) && c == command
                    } else {
                        r is Nothing
                    }
                },
                PeerMessage::GraphChange(change) => {
                    &&& final(self).spec_room() == old(self).spec_room()
                    &&& r matches PeerAction::Write(PeerIncomingMessage::GraphChange(g)) && g == change
                },
                PeerMessage::SetRoom(room) => {
                    &&& final(self).spec_room() == room
                    &&& if old(self).spec_room() is Some {
                        r matches PeerAction::ToFormerRoom(former, RoomMessage::PeerLeave(a)) && former
                            == old(self).spec_room()->0 && a == old(self).spec_address()
                    } else {
                        r is Nothing
                    }
                },
            },
    {
        match msg {
            PeerMessage::RequestJoin(req) => PeerAction::ToCoordinator(
                CoordinatorMessage::PeerJoinRoom(self.address, req.room),
            ),
            PeerMessage::Disconnect => PeerAction::ToCoordinator(CoordinatorMessage::PeerLeave(self.address)),
            PeerMessage::GraphCommand(command) => {
                if self.room.is_some() {
                    PeerAction::ToRoom(RoomMessage::GraphCommand(command))
                } else {
                    PeerAction::Nothing
                }
            },
            PeerMessage::GraphChange(change) => PeerAction::Write(PeerIncomingMessage::GraphChange(change)),
            PeerMessage::SetRoom(room) => {
                let mut former = room;
                std::mem::swap(&mut self.room, &mut former);
                match former {
                    Some(former) => PeerAction::ToFormerRoom(former, RoomMessage::PeerLeave(self.address)),
                    None => PeerAction::Nothing,
                }
            },
        }
    }
}

} // verus!
