use vstd::prelude::*;

use crate::board::{Color, Square};
use crate::codec::{
    decode_ack, decode_move, move_valid, parse_ack_spec, parse_move_spec, AckMessage, GameEnd,
    MoveMessage, PromotionPiece,
};

verus! {

/// A move as both boards apply it.
#[derive(Clone, Copy, Debug, PartialEq, Eq, Structural)]
pub struct PlayedMove {
    pub from: Square,
    pub to: Square,
    pub promotion: Option<PromotionPiece>,
}

/// What applying a move to a disposable copy of the board reported.
#[derive(Clone, Copy, Debug, PartialEq, Eq, Structural)]
pub enum Trial {
    Applied,
    /// A pawn reached the last rank and a piece must be chosen first.
    PromotionRequired,
    Illegal,
}

/// Where a session stands.
#[derive(Clone, Copy, Debug, PartialEq, Eq, Structural)]
pub enum Phase {
    /// Local turn, nothing selected.
    Selecting,
    /// Local turn, a piece is selected as the origin.
    Selected { origin: Square },
    /// A move is being tried on a copy of the board.
    Trying { from: Square, to: Square },
    /// The move needs a promotion piece from the local player.
    ChoosingPiece { from: Square, to: Square },
    /// The move with its piece is being tried on a copy of the board.
    TryingPromotion { from: Square, to: Square, piece: PromotionPiece },
    /// The move was sent; its acknowledgement has not arrived.
    AwaitingAck { mv: PlayedMove },
    /// The opponent's turn.
    AwaitingRemote,
    /// A received move is being tried on a copy of the board.
    Validating { mv: PlayedMove },
    /// The game has ended.
    GameOver { end: GameEnd },
}

/// Something that happened, reported to the session.
#[derive(Clone, Copy, Debug, PartialEq, Eq, Structural)]
pub enum Event {
    /// The local player picked `square`. `selectable`: it holds a piece of the
    /// side to move with at least one legal move. `target`: it is a legal
    /// destination of the selected origin.
    Click { square: Square, selectable: bool, target: bool },
    /// The local player picked the piece a pawn becomes.
    PieceChosen { piece: PromotionPiece },
    /// The outcome of the last requested trial.
    Tried { trial: Trial },
    AckReceived { ack: AckMessage },
    MoveReceived { msg: MoveMessage },
    /// The outcome of validating the received move.
    Validated { ok: bool },
    /// A buffer arrived that did not decode as the expected message.
    Garbled,
    /// The board reports that the game has ended.
    Ended { end: GameEnd },
}

/// What the caller must do next.
#[derive(Clone, Copy, Debug, PartialEq, Eq, Structural)]
pub enum Action {
    Idle,
    /// Apply the move to a copy of the board and report `Tried`.
    TryMove { from: Square, to: Square },
    /// Apply the promotion to a copy of the board and report `Tried`.
    TryPromotion { from: Square, to: Square, piece: PromotionPiece },
    /// Send the move and report the acknowledgement.
    Send { msg: MoveMessage },
    /// The peer accepted: apply the move to the board.
    Commit { mv: PlayedMove },
    /// Apply the received move to a copy of the board and report `Validated`.
    Validate { mv: PlayedMove },
    /// Apply the received move to the board, then send the acknowledgement.
    CommitAndAck { mv: PlayedMove, ack: AckMessage },
    /// Send the rejecting acknowledgement; the board stays as it is.
    Reject { ack: AckMessage },
    /// The peer disagreed with a move this side found legal, or sent garbage:
    /// the boards may have diverged and the user must be warned.
    Desync,
}

/// The state of one game as seen from one side.
pub struct SessionView {
    pub local: Color,
    pub to_move: Color,
    pub phase: Phase,
    /// The moves committed to this side's board, in order.
    pub history: Seq<PlayedMove>,
}

pub open spec fn is_local_phase(p: Phase) -> bool {
    match p {
        Phase::Selecting | Phase::Selected { .. } | Phase::Trying { .. } | Phase::ChoosingPiece {
            ..
        } | Phase::TryingPromotion { .. } | Phase::AwaitingAck { .. } => true,
        _ => false,
    }
}

pub open spec fn is_remote_phase(p: Phase) -> bool {
    p is AwaitingRemote || p is Validating
}

pub open spec fn played_wf(mv: PlayedMove) -> bool {
    mv.from.wf() && mv.to.wf()
}

/// The squares a phase holds lie on the board.
pub open spec fn phase_wf(p: Phase) -> bool {
    match p {
        Phase::Selected { origin } => origin.wf(),
        Phase::Trying { from, to } => from.wf() && to.wf(),
        Phase::ChoosingPiece { from, to } => from.wf() && to.wf(),
        Phase::TryingPromotion { from, to, .. } => from.wf() && to.wf(),
        Phase::AwaitingAck { mv } => played_wf(mv),
        Phase::Validating { mv } => played_wf(mv),
        _ => true,
    }
}

impl SessionView {
    /// Local phases hold exactly on the local side's turn, remote phases on the other's.
    pub open spec fn wf(self) -> bool {
        &&& phase_wf(self.phase)
        &&& is_local_phase(self.phase) ==> self.to_move == self.local
        &&& is_remote_phase(self.phase) ==> self.to_move != self.local
    }

    /// Whether this side believes it may move now.
    pub open spec fn my_turn(self) -> bool {
        is_local_phase(self.phase)
    }

    /// Whether this side believes the opponent moves now.
    pub open spec fn their_turn(self) -> bool {
        is_remote_phase(self.phase)
    }

    /// The same session with `mv` applied to the board and the turn passed on.
    pub open spec fn committed(self, mv: PlayedMove, phase: Phase) -> SessionView {
        SessionView {
            local: self.local,
            to_move: self.to_move.opposite(),
            phase,
            history: self.history.push(mv),
        }
    }

    pub open spec fn with_phase(self, phase: Phase) -> SessionView {
        SessionView { phase, ..self }
    }
}

/// The message that carries a move.
pub open spec fn message_of(mv: PlayedMove) -> MoveMessage {
    MoveMessage {
        from: mv.from,
        to: mv.to,
        promotion: mv.promotion,
        forfeit: false,
        offer_draw: false,
    }
}

/// The move a message carries.
pub open spec fn move_of(msg: MoveMessage) -> PlayedMove {
    PlayedMove { from: msg.from, to: msg.to, promotion: msg.promotion }
}

pub open spec fn ack_of(ok: bool) -> AckMessage {
    AckMessage { ok, end_state: None }
}

/// One transition of the turn protocol.
pub open spec fn step_spec(s: SessionView, e: Event) -> (SessionView, Action) {
    match (s.phase, e) {
        (Phase::GameOver { .. }, _) => (s, Action::Idle),
        (_, Event::Ended { end }) => (s.with_phase(Phase::GameOver { end }), Action::Idle),
        (Phase::Selecting, Event::Click { square, selectable, .. }) => if selectable
            && square.wf() {
            (s.with_phase(Phase::Selected { origin: square }), Action::Idle)
        } else {
            (s, Action::Idle)
        },
        (Phase::Selected { origin }, Event::Click { square, selectable, target }) => if !square.wf() {
            (s, Action::Idle)
        } else if target {
            (
                s.with_phase(Phase::Trying { from: origin, to: square }),
                Action::TryMove { from: origin, to: square },
            )
        } else if selectable {
            (s.with_phase(Phase::Selected { origin: square }), Action::Idle)
        } else {
            (s.with_phase(Phase::Selecting), Action::Idle)
        },
        (Phase::Trying { from, to }, Event::Tried { trial }) => match trial {
            Trial::Applied => {
                let mv = PlayedMove { from, to, promotion: None };
                (s.with_phase(Phase::AwaitingAck { mv }), Action::Send { msg: message_of(mv) })
            },
            Trial::PromotionRequired => (
                s.with_phase(Phase::ChoosingPiece { from, to }),
                Action::Idle,
            ),
            Trial::Illegal => (s.with_phase(Phase::Selecting), Action::Idle),
        },
        (Phase::ChoosingPiece { from, to }, Event::PieceChosen { piece }) => (
            s.with_phase(Phase::TryingPromotion { from, to, piece }),
            Action::TryPromotion { from, to, piece },
        ),
        (Phase::TryingPromotion { from, to, piece }, Event::Tried { trial }) => match trial {
            Trial::Applied => {
                let mv = PlayedMove { from, to, promotion: Some(piece) };
                (s.with_phase(Phase::AwaitingAck { mv }), Action::Send { msg: message_of(mv) })
            },
            _ => (s.with_phase(Phase::Selecting), Action::Idle),
        },
        (Phase::AwaitingAck { mv }, Event::AckReceived { ack }) => if ack.ok {
            (s.committed(mv, Phase::AwaitingRemote), Action::Commit { mv })
        } else {
            (s.with_phase(Phase::Selecting), Action::Desync)
        },
        (Phase::AwaitingAck { .. }, Event::Garbled) => (
            s.with_phase(Phase::Selecting),
            Action::Desync,
        ),
        (Phase::AwaitingRemote, Event::MoveReceived { msg }) => if move_valid(msg) {
            (
                s.with_phase(Phase::Validating { mv: move_of(msg) }),
                Action::Validate { mv: move_of(msg) },
            )
        } else {
            (s, Action::Reject { ack: ack_of(false) })
        },
        (Phase::AwaitingRemote, Event::Garbled) => (s, Action::Desync),
        (Phase::Validating { mv }, Event::Validated { ok }) => if ok {
            (s.committed(mv, Phase::Selecting), Action::CommitAndAck { mv, ack: ack_of(true) })
        } else {
            (s.with_phase(Phase::AwaitingRemote), Action::Reject { ack: ack_of(false) })
        },
        _ => (s, Action::Idle),
    }
}


/// One side of a game: whose turn it is, what the local player has picked so
/// far, and the moves committed to this side's board.
pub struct Session {
    local: Color,
    to_move: Color,
    phase: Phase,
    history: Vec<PlayedMove>,
}

impl View for Session {
    type V = SessionView;

    closed spec fn view(&self) -> SessionView {
        SessionView {
            local: self.local,
            to_move: self.to_move,
            phase: self.phase,
            history: self.history@,
        }
    }
}

fn message_for(mv: PlayedMove) -> (r: MoveMessage)
    ensures
        r == message_of(mv),
{
    MoveMessage {
        from: mv.from,
        to: mv.to,
        promotion: mv.promotion,
        forfeit: false,
        offer_draw: false,
    }
}

fn ack_for(ok: bool) -> (r: AckMessage)
    ensures
        r == ack_of(ok),
{
    AckMessage { ok, end_state: None }
}

impl Session {
    /// A fresh session for the side playing `local`, on a board where
    /// `to_move` is to move and nothing has been played yet.
    pub fn new(local: Color, to_move: Color) -> (r: Session)
        ensures
            r@.local == local,
            r@.to_move == to_move,
            r@.history == Seq::<PlayedMove>::empty(),
            r@.phase == if local == to_move {
                Phase::Selecting
            } else {
                Phase::AwaitingRemote
            },
            r@.wf(),
    {
        let phase = if local == to_move {
            Phase::Selecting
        } else {
            Phase::AwaitingRemote
        };
        Session { local, to_move, phase, history: Vec::new() }
    }

    pub fn local(&self) -> (r: Color)
        ensures
            r == self@.local,
    {
        self.local
    }

    pub fn to_move(&self) -> (r: Color)
        ensures
            r == self@.to_move,
    {
        self.to_move
    }

    pub fn phase(&self) -> (r: Phase)
        ensures
            r == self@.phase,
    {
        self.phase
    }

    /// The moves committed to this side's board, in order.
    pub fn history(&self) -> (r: &Vec<PlayedMove>)
        ensures
            r@ == self@.history,
    {
        &self.history
    }

    /// Whether the local player may act now.
    pub fn is_my_turn(&self) -> (r: bool)
        ensures
            r == self@.my_turn(),
    {
        match self.phase {
            Phase::Selecting | Phase::Selected { .. } | Phase::Trying { .. }
            | Phase::ChoosingPiece { .. } | Phase::TryingPromotion { .. }
            | Phase::AwaitingAck { .. } => true,
            _ => false,
        }
    }

    fn set_phase(&mut self, phase: Phase)
        ensures
            final(self)@ == old(self)@.with_phase(phase),
    {
        self.phase = phase;
    }

    fn commit(&mut self, mv: PlayedMove, phase: Phase)
        ensures
            final(self)@ == old(self)@.committed(mv, phase),
    {
        self.history.push(mv);
        self.to_move = self.to_move.other();
        self.phase = phase;
    }

    /// Reports one event and returns what to do next.
    pub fn step(&mut self, e: Event) -> (r: Action)
        requires
            old(self)@.wf(),
        ensures
            (final(self)@, r) == step_spec(old(self)@, e),
            final(self)@.wf(),
    {
        proof {
            lemma_step_wf(self@, e);
        }
        match (self.phase, e) {
            (Phase::GameOver { .. }, _) => Action::Idle,
            (_, Event::Ended { end }) => {
                self.set_phase(Phase::GameOver { end });
                Action::Idle
            },
            (Phase::Selecting, Event::Click { square, selectable, .. }) => {
                if selectable && square.file < 8 && square.rank < 8 {
                    self.set_phase(Phase::Selected { origin: square });
                }
                Action::Idle
            },
            (Phase::Selected { origin }, Event::Click { square, selectable, target }) => {
                if !(square.file < 8 && square.rank < 8) {
                    Action::Idle
                } else if target {
                    self.set_phase(Phase::Trying { from: origin, to: square });
                    Action::TryMove { from: origin, to: square }
                } else if selectable {
                    self.set_phase(Phase::Selected { origin: square });
                    Action::Idle
                } else {
                    self.set_phase(Phase::Selecting);
                    Action::Idle
                }
            },
            (Phase::Trying { from, to }, Event::Tried { trial }) => match trial {
                Trial::Applied => {
                    let mv = PlayedMove { from, to, promotion: None };
                    self.set_phase(Phase::AwaitingAck { mv });
                    Action::Send { msg: message_for(mv) }
                },
                Trial::PromotionRequired => {
                    self.set_phase(Phase::ChoosingPiece { from, to });
                    Action::Idle
                },
                Trial::Illegal => {
                    self.set_phase(Phase::Selecting);
                    Action::Idle
                },
            },
            (Phase::ChoosingPiece { from, to }, Event::PieceChosen { piece }) => {
                self.set_phase(Phase::TryingPromotion { from, to, piece });
                Action::TryPromotion { from, to, piece }
            },
            (Phase::TryingPromotion { from, to, piece }, Event::Tried { trial }) => match trial {
                Trial::Applied => {
                    let mv = PlayedMove { from, to, promotion: Some(piece) };
                    self.set_phase(Phase::AwaitingAck { mv });
                    Action::Send { msg: message_for(mv) }
                },
                _ => {
                    self.set_phase(Phase::Selecting);
                    Action::Idle
                },
            },
            (Phase::AwaitingAck { mv }, Event::AckReceived { ack }) => {
                if ack.ok {
                    self.commit(mv, Phase::AwaitingRemote);
                    Action::Commit { mv }
                } else {
                    self.set_phase(Phase::Selecting);
                    Action::Desync
                }
            },
            (Phase::AwaitingAck { .. }, Event::Garbled) => {
                self.set_phase(Phase::Selecting);
                Action::Desync
            },
            (Phase::AwaitingRemote, Event::MoveReceived { msg }) => {
                if msg.from.file < 8 && msg.from.rank < 8 && msg.to.file < 8 && msg.to.rank < 8 {
                    let mv = PlayedMove { from: msg.from, to: msg.to, promotion: msg.promotion };
                    self.set_phase(Phase::Validating { mv });
                    Action::Validate { mv }
                } else {
                    Action::Reject { ack: ack_for(false) }
                }
            },
            (Phase::AwaitingRemote, Event::Garbled) => Action::Desync,
            (Phase::Validating { mv }, Event::Validated { ok }) => {
                if ok {
                    self.commit(mv, Phase::Selecting);
                    Action::CommitAndAck { mv, ack: ack_for(true) }
                } else {
                    self.set_phase(Phase::AwaitingRemote);
                    Action::Reject { ack: ack_for(false) }
                }
            },
            _ => Action::Idle,
        }
    }

    /// Reports the bytes read while awaiting an acknowledgement.
    pub fn receive_ack(&mut self, b: &[u8]) -> (r: Action)
        requires
            old(self)@.wf(),
        ensures
            (final(self)@, r) == step_spec(
                old(self)@,
                match parse_ack_spec(b@) {
                    Some(ack) => Event::AckReceived { ack },
                    None => Event::Garbled,
                },
            ),
            final(self)@.wf(),
    {
        match decode_ack(b) {
            Ok(ack) => self.step(Event::AckReceived { ack }),
            Err(_) => self.step(Event::Garbled),
        }
    }

    /// Reports the bytes read while awaiting the opponent's move.
    pub fn receive_move(&mut self, b: &[u8]) -> (r: Action)
        requires
            old(self)@.wf(),
        ensures
            (final(self)@, r) == step_spec(
                old(self)@,
                match parse_move_spec(b@) {
                    Some(msg) => Event::MoveReceived { msg },
                    None => Event::Garbled,
                },
            ),
            final(self)@.wf(),
    {
        match decode_move(b) {
            Ok(msg) => self.step(Event::MoveReceived { msg }),
            Err(_) => self.step(Event::Garbled),
        }
    }
}

/// Every transition keeps a session well formed.
pub proof fn lemma_step_wf(s: SessionView, e: Event)
    requires
        s.wf(),
    ensures
        step_spec(s, e).0.wf(),
{
}

} // verus!
