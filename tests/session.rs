use netchess::board::{Color, Square};
use netchess::codec::{encode_ack, encode_move, AckMessage, GameEnd, MoveMessage, PromotionPiece};
use netchess::session::{Action, Event, Phase, PlayedMove, Session, Trial};

fn sq(file: u8, rank: u8) -> Square {
    Square::new(file, rank)
}

fn click(square: Square, selectable: bool, target: bool) -> Event {
    Event::Click { square, selectable, target }
}

#[test]
fn new_session_phase_follows_turn() {
    let w = Session::new(Color::White, Color::White);
    assert_eq!(w.phase(), Phase::Selecting);
    assert!(w.is_my_turn());
    let b = Session::new(Color::Black, Color::White);
    assert_eq!(b.phase(), Phase::AwaitingRemote);
    assert!(!b.is_my_turn());
}

#[test]
fn selecting_an_empty_square_does_nothing() {
    let mut s = Session::new(Color::White, Color::White);
    assert_eq!(s.step(click(sq(4, 4), false, false)), Action::Idle);
    assert_eq!(s.phase(), Phase::Selecting);
}

#[test]
fn illegal_move_stays_local() {
    let mut s = Session::new(Color::White, Color::White);
    assert_eq!(s.step(click(sq(4, 1), true, false)), Action::Idle);
    assert_eq!(s.step(click(sq(4, 5), false, true)), Action::TryMove { from: sq(4, 1), to: sq(4, 5) });
    assert_eq!(s.step(Event::Tried { trial: Trial::Illegal }), Action::Idle);
    assert_eq!(s.phase(), Phase::Selecting);
    assert!(s.history().is_empty());
    assert_eq!(s.to_move(), Color::White);
}

#[test]
fn a_target_square_is_a_move_attempt_not_a_reselection() {
    let mut s = Session::new(Color::White, Color::White);
    s.step(click(sq(3, 0), true, false));
    let a = s.step(click(sq(4, 0), true, true));
    assert_eq!(a, Action::TryMove { from: sq(3, 0), to: sq(4, 0) });
}

#[test]
fn a_non_target_piece_is_reselected_and_anything_else_deselects() {
    let mut s = Session::new(Color::White, Color::White);
    s.step(click(sq(3, 1), true, false));
    s.step(click(sq(4, 1), true, false));
    assert_eq!(s.phase(), Phase::Selected { origin: sq(4, 1) });
    s.step(click(sq(0, 5), false, false));
    assert_eq!(s.phase(), Phase::Selecting);
}

#[test]
fn rejected_ack_is_a_desync_and_keeps_the_board() {
    let mut s = Session::new(Color::White, Color::White);
    s.step(click(sq(4, 1), true, false));
    s.step(click(sq(4, 3), false, true));
    let sent = s.step(Event::Tried { trial: Trial::Applied });
    assert!(matches!(sent, Action::Send { .. }));
    let ack = encode_ack(&AckMessage { ok: false, end_state: None });
    assert_eq!(s.receive_ack(&ack), Action::Desync);
    assert_eq!(s.phase(), Phase::Selecting);
    assert!(s.history().is_empty());
    assert_eq!(s.to_move(), Color::White);
}

#[test]
fn garbled_ack_is_a_desync() {
    let mut s = Session::new(Color::White, Color::White);
    s.step(click(sq(4, 1), true, false));
    s.step(click(sq(4, 3), false, true));
    s.step(Event::Tried { trial: Trial::Applied });
    assert_eq!(s.receive_ack(&[1, 2, 3, 4]), Action::Desync);
    assert!(s.history().is_empty());
}

#[test]
fn promotion_needs_a_piece_before_anything_is_sent() {
    let mut s = Session::new(Color::White, Color::White);
    s.step(click(sq(0, 6), true, false));
    s.step(click(sq(0, 7), false, true));
    assert_eq!(s.step(Event::Tried { trial: Trial::PromotionRequired }), Action::Idle);
    assert_eq!(s.phase(), Phase::ChoosingPiece { from: sq(0, 6), to: sq(0, 7) });
    assert_eq!(s.step(click(sq(2, 2), true, true)), Action::Idle);
    assert!(s.history().is_empty());
    let a = s.step(Event::PieceChosen { piece: PromotionPiece::Queen });
    assert_eq!(
        a,
        Action::TryPromotion { from: sq(0, 6), to: sq(0, 7), piece: PromotionPiece::Queen }
    );
    let sent = s.step(Event::Tried { trial: Trial::Applied });
    let msg = MoveMessage {
        from: sq(0, 6),
        to: sq(0, 7),
        promotion: Some(PromotionPiece::Queen),
        forfeit: false,
        offer_draw: false,
    };
    assert_eq!(sent, Action::Send { msg });
    assert!(s.history().is_empty());
    let ack = encode_ack(&AckMessage { ok: true, end_state: None });
    let mv = PlayedMove { from: sq(0, 6), to: sq(0, 7), promotion: Some(PromotionPiece::Queen) };
    assert_eq!(s.receive_ack(&ack), Action::Commit { mv });
    assert_eq!(s.history(), &vec![mv]);
    assert_eq!(s.to_move(), Color::Black);
}

#[test]
fn failed_promotion_trial_clears_everything() {
    let mut s = Session::new(Color::Black, Color::Black);
    s.step(click(sq(0, 1), true, false));
    s.step(click(sq(0, 0), false, true));
    s.step(Event::Tried { trial: Trial::PromotionRequired });
    s.step(Event::PieceChosen { piece: PromotionPiece::Rook });
    assert_eq!(s.step(Event::Tried { trial: Trial::Illegal }), Action::Idle);
    assert_eq!(s.phase(), Phase::Selecting);
}

#[test]
fn receiver_rejects_invalid_move_and_keeps_board() {
    let mut s = Session::new(Color::Black, Color::White);
    let msg = MoveMessage { from: sq(0, 0), to: sq(0, 5), promotion: None, forfeit: false, offer_draw: false };
    let mv = PlayedMove { from: sq(0, 0), to: sq(0, 5), promotion: None };
    assert_eq!(s.receive_move(&encode_move(&msg)), Action::Validate { mv });
    assert_eq!(
        s.step(Event::Validated { ok: false }),
        Action::Reject { ack: AckMessage { ok: false, end_state: None } }
    );
    assert_eq!(s.phase(), Phase::AwaitingRemote);
    assert!(s.history().is_empty());
}

#[test]
fn receiver_ignores_clicks_and_reports_garbage() {
    let mut s = Session::new(Color::Black, Color::White);
    assert_eq!(s.step(click(sq(4, 6), true, true)), Action::Idle);
    assert_eq!(s.receive_move(&[9, 9]), Action::Desync);
    assert_eq!(s.phase(), Phase::AwaitingRemote);
}

#[test]
fn game_over_accepts_nothing() {
    let mut s = Session::new(Color::White, Color::White);
    s.step(Event::Ended { end: GameEnd::Draw });
    assert_eq!(s.phase(), Phase::GameOver { end: GameEnd::Draw });
    assert_eq!(s.step(click(sq(4, 1), true, false)), Action::Idle);
    assert!(!s.is_my_turn());
}

#[test]
fn exactly_one_side_has_the_turn() {
    let w = Session::new(Color::White, Color::White);
    let b = Session::new(Color::Black, Color::White);
    assert_ne!(w.is_my_turn(), b.is_my_turn());
}
