use netchess::board::{Color, Square};
use netchess::codec::{decode_start, encode_ack, encode_move, DecodeError, StartMessage, TAG_START};
use netchess::handshake::{
    initiator_assignment, initiator_finish, initiator_hello, initiator_open, listener_answer,
    listener_reply,
};
use netchess::session::{Action, Event, Phase, PlayedMove, Session, Trial};

#[test]
fn initiator_proposes_white() {
    let hello = initiator_hello();
    assert!(hello.is_white);
    assert_eq!(hello.fen, None);
    assert_eq!(initiator_open(), vec![TAG_START, 1, 0, 0, 0, 0]);
}

#[test]
fn listener_negates_and_plays_the_stated_colour() {
    let (reply, local) = listener_reply(&initiator_hello());
    assert!(!reply.is_white);
    assert_eq!(local, Color::Black);
    assert_eq!(reply.fen, None);
}

#[test]
fn initiator_takes_the_opposite_of_the_stated_colour_and_the_fen() {
    let reply = StartMessage {
        is_white: true,
        name: None,
        fen: Some("8/8/8/8/8/8/8/K6k w - - 0 1".to_string()),
        time: None,
        inc: None,
    };
    let a = initiator_assignment(&reply);
    assert_eq!(a.local, Color::Black);
    assert_eq!(a.resume_fen.as_deref(), Some("8/8/8/8/8/8/8/K6k w - - 0 1"));
}

#[test]
fn malformed_start_is_fatal() {
    assert_eq!(initiator_finish(&[TAG_START, 7]), Err(DecodeError::Malformed));
    let ack = encode_ack(&netchess::codec::AckMessage { ok: true, end_state: None });
    assert_eq!(listener_answer(&ack).map(|r| r.1), Err(DecodeError::WrongKind));
}

#[test]
fn opening_exchange_then_first_move() {
    // Handshake over bytes.
    let hello = initiator_open();
    let (reply, listener_colour) = listener_answer(&hello).expect("listener accepts");
    assert_eq!(decode_start(&reply).map(|m| m.is_white), Ok(false));
    let assignment = initiator_finish(&reply).expect("initiator accepts");
    assert_eq!(assignment.resume_fen, None);
    assert_ne!(assignment.local, listener_colour);
    let initiator_colour = assignment.local;
    assert_eq!(initiator_colour, Color::White);

    // Standard position: white moves first.
    let mut mover = Session::new(initiator_colour, Color::White);
    let mut waiter = Session::new(listener_colour, Color::White);
    assert!(mover.is_my_turn());
    assert!(!waiter.is_my_turn());

    let e2 = Square::new(4, 1);
    let e4 = Square::new(4, 3);
    mover.step(Event::Click { square: e2, selectable: true, target: false });
    assert_eq!(
        mover.step(Event::Click { square: e4, selectable: false, target: true }),
        Action::TryMove { from: e2, to: e4 }
    );
    let msg = match mover.step(Event::Tried { trial: Trial::Applied }) {
        Action::Send { msg } => msg,
        other => panic!("expected a send, got {:?}", other),
    };
    assert_eq!((msg.from, msg.to, msg.promotion), (e2, e4, None));
    let wire = encode_move(&msg);

    let mv = PlayedMove { from: e2, to: e4, promotion: None };
    assert_eq!(waiter.receive_move(&wire), Action::Validate { mv });
    let ack = match waiter.step(Event::Validated { ok: true }) {
        Action::CommitAndAck { mv: committed, ack } => {
            assert_eq!(committed, mv);
            ack
        }
        other => panic!("expected a commit, got {:?}", other),
    };
    assert!(ack.ok);
    assert_eq!(mover.receive_ack(&encode_ack(&ack)), Action::Commit { mv });

    assert_eq!(mover.history(), waiter.history());
    assert_eq!(mover.history(), &vec![mv]);
    assert_eq!(mover.to_move(), Color::Black);
    assert_eq!(waiter.to_move(), Color::Black);
    assert_eq!(mover.phase(), Phase::AwaitingRemote);
    assert_eq!(waiter.phase(), Phase::Selecting);
    assert_ne!(mover.is_my_turn(), waiter.is_my_turn());
}
