use vstd::prelude::*;

use crate::board::Color;
use crate::codec::{
    decode_start, encode_start, parse_start_spec, rejection,
    start_bytes, text_view, DecodeError, StartMessage, StartView, START_CAPACITY,
};

verus! {

/// The colour a side plays and the position it starts from, as the
/// handshake settled them.
#[derive(Clone, Debug, PartialEq, Eq)]
pub struct Assignment {
    pub local: Color,
    /// A position to load instead of the standard one.
    pub resume_fen: Option<String>,
}

/// A start message with only the colour flag set.
pub open spec fn bare_start(is_white: bool) -> StartView {
    StartView { is_white, name: None, fen: None, time: None, inc: None }
}

fn bare_start_message(is_white: bool) -> (r: StartMessage)
    ensures
        r@ == bare_start(is_white),
{
    StartMessage { is_white, name: None, fen: None, time: None, inc: None }
}

/// The start message the initiator opens with: it proposes to play white.
pub fn initiator_hello() -> (r: StartMessage)
    ensures
        r@ == bare_start(true),
{
    bare_start_message(true)
}

/// The initiator's side of the outcome: it plays the colour opposite to the
/// one the listener states for itself, from the position the reply carries, if any.
pub fn initiator_assignment(reply: &StartMessage) -> (r: Assignment)
    ensures
        r.local == (if reply.is_white {
            Color::Black
        } else {
            Color::White
        }),
        text_view(r.resume_fen) == text_view(reply.fen),
{
    Assignment { local: Color::from_is_white(!reply.is_white), resume_fen: reply.fen.clone() }
}

/// The listener's reply to a received start message, and the colour the
/// listener then plays: the one opposite to the initiator's proposal, stated
/// in the reply. The listener never proposes a position.
pub fn listener_reply(received: &StartMessage) -> (r: (StartMessage, Color))
    ensures
        r.0@ == bare_start(!received.is_white),
        r.1 == (if received.is_white {
            Color::Black
        } else {
            Color::White
        }),
{
    (bare_start_message(!received.is_white), Color::from_is_white(!received.is_white))
}

/// The bytes the initiator sends first.
pub fn initiator_open() -> (r: Vec<u8>)
    ensures
        r@ == start_bytes(bare_start(true)),
{
    let m = initiator_hello();
    proof {
        assert(start_bytes(bare_start(true)).len() == 6);
    }
    match encode_start(&m) {
        Some(b) => b,
        None => Vec::new(),
    }
}

/// The initiator reads the listener's reply.
pub fn initiator_finish(b: &[u8]) -> (r: Result<Assignment, DecodeError>)
    ensures
        parse_start_spec(b@) is None ==> r == Err::<Assignment, DecodeError>(
            rejection(b@, START_CAPACITY),
        ),
        parse_start_spec(b@) is Some ==> r is Ok && r->Ok_0.local == (if parse_start_spec(
            b@,
        )->Some_0.is_white {
            Color::Black
        } else {
            Color::White
        }) && text_view(r->Ok_0.resume_fen) == parse_start_spec(b@)->Some_0.fen,
{
    match decode_start(b) {
        Ok(reply) => Ok(initiator_assignment(&reply)),
        Err(e) => Err(e),
    }
}

/// The listener reads the initiator's start message, and answers with the
/// bytes to send back and the colour it plays.
pub fn listener_answer(b: &[u8]) -> (r: Result<(Vec<u8>, Color), DecodeError>)
    ensures
        parse_start_spec(b@) is None ==> r == Err::<(Vec<u8>, Color), DecodeError>(
            rejection(b@, START_CAPACITY),
        ),
        parse_start_spec(b@) is Some ==> r is Ok && r->Ok_0.0@ == start_bytes(
            bare_start(!parse_start_spec(b@)->Some_0.is_white),
        ) && r->Ok_0.1 == (if parse_start_spec(b@)->Some_0.is_white {
            Color::Black
        } else {
            Color::White
        }),
{
    match decode_start(b) {
        Ok(received) => {
            let (reply, local) = listener_reply(&received);
            proof {
                assert(start_bytes(reply@).len() == 6);
            }
            match encode_start(&reply) {
                Some(bytes) => Ok((bytes, local)),
                None => Ok((Vec::new(), local)),
            }
        },
        Err(e) => Err(e),
    }
}

} // verus!
