use shared::protocol::{PeerIncomingMessage, PeerOutgoingMessage, RequestJoin};
use shared::server::coordinator::{Coordinator, CoordinatorAction, CoordinatorMessage};
use shared::server::peer::{read_step, Peer, PeerAction, PeerMessage};
use shared::server::room::{Room, RoomAction, RoomMessage};

type Msg = PeerMessage<&'static str, &'static str, &'static str>;
type Act = PeerAction<&'static str, &'static str, &'static str, u8>;

#[test]
fn peer_join_and_leave_go_to_coordinator() {
    let mut p: Peer<&'static str> = Peer::new(4);
    let a: Act = p.handle_message(Msg::RequestJoin(RequestJoin { room: "lobby".to_string() }));
    match a {
        PeerAction::ToCoordinator(CoordinatorMessage::PeerJoinRoom(4, name)) => assert_eq!(name, "lobby"),
        other => panic!("{:?}", other),
    }
    let b: Act = p.handle_message(Msg::Disconnect);
    assert!(matches!(b, PeerAction::ToCoordinator(CoordinatorMessage::PeerLeave(4))));
}

#[test]
fn peer_command_needs_a_room() {
    let mut p: Peer<&'static str> = Peer::new(1);
    let a: Act = p.handle_message(Msg::GraphCommand("cmd"));
    assert!(matches!(a, PeerAction::Nothing));
    let b: Act = p.handle_message(Msg::SetRoom(Some("room-a")));
    assert!(matches!(b, PeerAction::Nothing));
    assert_eq!(p.room(), Some(&"room-a"));
    let c: Act = p.handle_message(Msg::GraphCommand("cmd"));
    assert!(matches!(c, PeerAction::ToRoom(RoomMessage::GraphCommand("cmd"))));
}

#[test]
fn peer_changing_room_leaves_the_former() {
    let mut p: Peer<&'static str> = Peer::new(9);
    let _: Act = p.handle_message(Msg::SetRoom(Some("a")));
    let b: Act = p.handle_message(Msg::SetRoom(Some("b")));
    assert!(matches!(b, PeerAction::ToFormerRoom("a", RoomMessage::PeerLeave(9))));
    let c: Act = p.handle_message(Msg::SetRoom(None));
    assert!(matches!(c, PeerAction::ToFormerRoom("b", RoomMessage::PeerLeave(9))));
    assert_eq!(p.room(), None);
    let d: Act = p.handle_message(Msg::GraphChange("change"));
    assert!(matches!(d, PeerAction::Write(PeerIncomingMessage::GraphChange("change"))));
    assert_eq!(p.address(), 9);
}

#[test]
fn room_membership_and_shutdown() {
    let mut r: Room<char> = Room::new("lobby".to_string());
    assert!(matches!(r.handle_message::<u8>(RoomMessage::PeerJoin(1, 'a')), RoomAction::Initialize(1)));
    assert!(matches!(r.handle_message::<u8>(RoomMessage::PeerJoin(2, 'b')), RoomAction::Initialize(2)));
    assert_eq!(r.peer(2), Some(&'b'));
    match r.handle_message(RoomMessage::GraphCommand(7u8)) {
        RoomAction::Broadcast(7, mut to) => {
            to.sort();
            assert_eq!(to, vec![1, 2]);
        }
        other => panic!("{:?}", other),
    }
    assert!(matches!(r.handle_message::<u8>(RoomMessage::PeerLeave(1)), RoomAction::Nothing));
    match r.handle_message::<u8>(RoomMessage::PeerLeave(2)) {
        RoomAction::RequestShutdown(name) => assert_eq!(name, "lobby"),
        other => panic!("{:?}", other),
    }
    assert!(matches!(r.handle_message::<u8>(RoomMessage::Save), RoomAction::Save));
    assert_eq!(r.name(), "lobby");
}

#[test]
fn coordinator_creates_rooms_once() {
    let mut c: Coordinator<u8, String> = Coordinator::new();
    let mut made = 0;
    assert!(c.handle_message(CoordinatorMessage::PeerJoin(1, 10), |n| n).is_empty());
    assert!(c.handle_message(CoordinatorMessage::PeerJoin(2, 20), |n| n).is_empty());
    let first = c.handle_message(CoordinatorMessage::PeerJoinRoom(1, "lobby".to_string()), |n| {
        made += 1;
        format!("room {}", n)
    });
    assert_eq!(first.len(), 2);
    match (&first[0], &first[1]) {
        (CoordinatorAction::SetPeerRoom(10, Some(room)), CoordinatorAction::RoomPeerJoin(room2, 1, 10)) => {
            assert_eq!(room, "room lobby");
            assert_eq!(room2, "room lobby");
        }
        other => panic!("{:?}", other),
    }
    let second = c.handle_message(CoordinatorMessage::PeerJoinRoom(2, "lobby".to_string()), |n| {
        made += 1;
        format!("other {}", n)
    });
    match (&second[0], &second[1]) {
        (CoordinatorAction::SetPeerRoom(20, Some(room)), CoordinatorAction::RoomPeerJoin(room2, 2, 20)) => {
            assert_eq!(room, "room lobby");
            assert_eq!(room2, "room lobby");
        }
        other => panic!("{:?}", other),
    }
    assert_eq!(made, 1);
    let leave = c.handle_message(CoordinatorMessage::PeerLeave(1), |n| n);
    assert!(matches!(leave.as_slice(), [CoordinatorAction::SetPeerRoom(10, None)]));
}

#[test]
fn coordinator_knows_its_peers() {
    let mut c: Coordinator<u8, String> = Coordinator::new();
    assert_eq!(c.peer(3), None);
    assert!(c.handle_message(CoordinatorMessage::PeerJoin(3, 30), |n| n).is_empty());
    assert_eq!(c.peer(3), Some(&30));
    let leave = c.handle_message(CoordinatorMessage::PeerLeave(3), |n| n);
    assert!(matches!(leave.as_slice(), [CoordinatorAction::SetPeerRoom(30, None)]));
    assert_eq!(c.peer(3), None);
}

#[test]
fn reader_forwards_until_the_stream_ends() {
    let (m, stop): (Msg, bool) = read_step(Some(PeerOutgoingMessage::GraphCommand("cmd")));
    assert!(matches!(m, PeerMessage::GraphCommand("cmd")) && !stop);
    let (m, stop): (Msg, bool) = read_step(Some(PeerOutgoingMessage::RequestJoin(RequestJoin { room: "r".to_string() })));
    assert!(matches!(m, PeerMessage::RequestJoin(RequestJoin { ref room }) if room == "r") && !stop);
    let (m, stop): (Msg, bool) = read_step(None);
    assert!(matches!(m, PeerMessage::Disconnect) && stop);
}
