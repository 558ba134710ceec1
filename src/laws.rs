use vstd::prelude::*;

use crate::board::{Color, Square};
use crate::codec::{
    ack_bytes, lemma_ack_canonical, lemma_ack_round_trip, lemma_move_canonical,
    lemma_move_round_trip, lemma_start_canonical, move_bytes, move_valid, parse_ack_spec,
    parse_move_spec, parse_start_spec, start_bytes, start_valid,
};
use crate::session::{
    ack_of, message_of, played_wf, step_spec, Action, Event, Phase, PlayedMove, SessionView,
    Trial,
};

verus! {

/// Any buffer, however it was made, decodes as at most one kind of message,
/// and only when it is exactly the encoding of a valid message of that kind.
pub proof fn lemma_decoding_is_exact(b: Seq<u8>)
    ensures
        !(parse_start_spec(b) is Some && parse_move_spec(b) is Some),
        !(parse_start_spec(b) is Some && parse_ack_spec(b) is Some),
        !(parse_move_spec(b) is Some && parse_ack_spec(b) is Some),
        parse_start_spec(b) is Some ==> start_valid(parse_start_spec(b)->Some_0) && start_bytes(
            parse_start_spec(b)->Some_0,
        ) == b,
        parse_move_spec(b) is Some ==> move_valid(parse_move_spec(b)->Some_0) && move_bytes(
            parse_move_spec(b)->Some_0,
        ) == b,
        parse_ack_spec(b) is Some ==> ack_bytes(parse_ack_spec(b)->Some_0) == b,
{
    if parse_start_spec(b) is Some {
        lemma_start_canonical(b);
    }
    if parse_move_spec(b) is Some {
        lemma_move_canonical(b);
    }
    if parse_ack_spec(b) is Some {
        lemma_ack_canonical(b);
    }
}

/// A move goes on the wire only as the answer to a successful trial on a copy
/// of the board, and it is the move that was tried: a pair that failed the
/// trial is never sent.
pub proof fn lemma_only_tried_moves_are_sent(s: SessionView, e: Event)
    requires
        s.wf(),
    ensures
        step_spec(s, e).1 is Send ==> e == (Event::Tried { trial: Trial::Applied }),
        e == (Event::Tried { trial: Trial::Illegal }) ==> !(step_spec(s, e).1 is Send),
        step_spec(s, e).1 is Send ==> match s.phase {
            Phase::Trying { from, to } => step_spec(s, e).1 == (Action::Send {
                msg: message_of(PlayedMove { from, to, promotion: None }),
            }),
            Phase::TryingPromotion { from, to, piece } => step_spec(s, e).1 == (Action::Send {
                msg: message_of(PlayedMove { from, to, promotion: Some(piece) }),
            }),
            _ => false,
        },
{
}

/// A board changes only when the peer accepts the sent move, or when this
/// side accepts a received one; each time by exactly that one move.
pub proof fn lemma_board_changes_only_on_acceptance(s: SessionView, e: Event)
    requires
        s.wf(),
    ensures
        step_spec(s, e).0.history != s.history ==> match (s.phase, e) {
            (Phase::AwaitingAck { mv }, Event::AckReceived { ack }) => ack.ok
                && step_spec(s, e).0.history == s.history.push(mv),
            (Phase::Validating { mv }, Event::Validated { ok }) => ok && step_spec(
                s,
                e,
            ).0.history == s.history.push(mv),
            _ => false,
        },
{
}

/// A pawn move that needs a promotion piece leaves the board alone and sends
/// nothing; while the piece is awaited nothing is sent or committed, and the
/// only way on is to try the move with a chosen piece.
pub proof fn lemma_promotion_waits_for_piece(s: SessionView, from: Square, to: Square, e: Event)
    requires
        s.wf(),
        s.phase == (Phase::Trying { from, to }),
    ensures
        ({
            let (s1, a1) = step_spec(s, Event::Tried { trial: Trial::PromotionRequired });
            &&& s1.phase == (Phase::ChoosingPiece { from, to })
            &&& s1.history == s.history
            &&& a1 == Action::Idle
            &&& step_spec(s1, e).0.history == s.history
            &&& !(step_spec(s1, e).1 is Send)
            &&& !(step_spec(s1, e).1 is Commit)
            &&& step_spec(s1, e).1 is TryPromotion ==> e is PieceChosen
        }),
{
}

/// Each transition passes the turn on exactly when it commits a move, and
/// commits at most one.
pub proof fn lemma_turn_passes_once_per_move(s: SessionView, e: Event)
    requires
        s.wf(),
    ensures
        step_spec(s, e).0.wf(),
        step_spec(s, e).0.local == s.local,
        step_spec(s, e).0.history == s.history ==> step_spec(s, e).0.to_move == s.to_move,
        step_spec(s, e).0.history != s.history ==> {
            &&& step_spec(s, e).0.to_move == s.to_move.opposite()
            &&& step_spec(s, e).0.history.len() == s.history.len() + 1
            &&& step_spec(s, e).0.history.drop_last() == s.history
        },
{
    let t = step_spec(s, e).0;
    if t.history != s.history {
        assert(t.history.drop_last() =~= s.history);
    }
    if t.to_move != s.to_move {
        assert(t.history.len() == s.history.len() + 1);
    }
}

/// Two sides of one game that agree on whose turn it is never both think it
/// is their own turn, nor both think it is the other's.
pub proof fn lemma_turn_exclusive(a: SessionView, b: SessionView)
    requires
        a.wf(),
        b.wf(),
        a.local != b.local,
        a.to_move == b.to_move,
        !(a.phase is GameOver),
        !(b.phase is GameOver),
    ensures
        a.my_turn() != b.my_turn(),
        a.their_turn() != b.their_turn(),
{
    assert(a.local == b.local.opposite()) by {
        match a.local {
            Color::White => {},
            Color::Black => {},
        }
    }
}

/// When the receiver accepts a sent move, the receiver after committing and
/// the sender after the acknowledgement hold the same moves, with the turn
/// passed on once on both sides.
pub proof fn lemma_ack_symmetry(a: SessionView, b: SessionView, mv: PlayedMove)
    requires
        a.wf(),
        b.wf(),
        a.phase == (Phase::AwaitingAck { mv }),
        b.phase == Phase::AwaitingRemote,
        a.history == b.history,
        a.to_move == b.to_move,
    ensures
        ({
            let received = parse_move_spec(move_bytes(message_of(mv)));
            let (b1, x1) = step_spec(b, Event::MoveReceived { msg: received->Some_0 });
            let (b2, x2) = step_spec(b1, Event::Validated { ok: true });
            let answer = parse_ack_spec(ack_bytes(ack_of(true)));
            let (a1, x3) = step_spec(a, Event::AckReceived { ack: answer->Some_0 });
            &&& received is Some
            &&& x1 == (Action::Validate { mv })
            &&& x2 == (Action::CommitAndAck { mv, ack: ack_of(true) })
            &&& answer is Some
            &&& x3 == (Action::Commit { mv })
            &&& a1.history == b2.history
            &&& a1.history == a.history.push(mv)
            &&& a1.to_move == b2.to_move
            &&& a1.to_move == a.to_move.opposite()
        }),
{
    assert(played_wf(mv));
    lemma_move_round_trip(message_of(mv));
    lemma_ack_round_trip(ack_of(true));
}

} // verus!
