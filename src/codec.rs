use vstd::prelude::*;

use crate::board::Square;
use vstd::utf8::*;
use vstd::string::*;

verus! {

/// First byte of an encoded start message.
pub const TAG_START: u8 = 0x53;

/// First byte of an encoded move message.
pub const TAG_MOVE: u8 = 0x4d;

/// First byte of an encoded acknowledgement.
pub const TAG_ACK: u8 = 0x41;

/// Largest start message a peer reads in one go.
pub const START_CAPACITY: usize = 128;

/// Largest move message a peer reads in one go.
pub const MOVE_CAPACITY: usize = 128;

/// Largest acknowledgement a peer reads in one go.
pub const ACK_CAPACITY: usize = 1024;

/// Why a buffer was not accepted as a message.
#[derive(Clone, Copy, Debug, PartialEq, Eq, Structural)]
pub enum DecodeError {
    /// Truncated, over-long, or otherwise not a message of any kind.
    Malformed,
    /// A well-formed message, but of another kind than the one expected.
    WrongKind,
    /// Longer than the receive buffer of the expected kind.
    Oversized,
}

/// The piece a pawn becomes on the last rank.
#[derive(Clone, Copy, Debug, PartialEq, Eq, Structural)]
pub enum PromotionPiece {
    Queen,
    Bishop,
    Knight,
    Rook,
}

/// How a finished game ended.
#[derive(Clone, Copy, Debug, PartialEq, Eq, Structural)]
pub enum GameEnd {
    WhiteWins,
    BlackWins,
    Draw,
}

/// A move sent by the side whose turn it is.
#[derive(Clone, Copy, Debug, PartialEq, Eq, Structural)]
pub struct MoveMessage {
    pub from: Square,
    pub to: Square,
    pub promotion: Option<PromotionPiece>,
    pub forfeit: bool,
    pub offer_draw: bool,
}

/// The receiver's verdict on one move.
#[derive(Clone, Copy, Debug, PartialEq, Eq, Structural)]
pub struct AckMessage {
    pub ok: bool,
    pub end_state: Option<GameEnd>,
}

pub open spec fn bool_byte(b: bool) -> u8 {
    if b {
        1
    } else {
        0
    }
}

/// The flag a byte stands for, if it stands for one.
pub open spec fn byte_bool(x: u8) -> Option<bool> {
    if x == 0 {
        Some(false)
    } else if x == 1 {
        Some(true)
    } else {
        None
    }
}

pub open spec fn promotion_byte(p: Option<PromotionPiece>) -> u8 {
    match p {
        None => 0,
        Some(PromotionPiece::Queen) => 1,
        Some(PromotionPiece::Bishop) => 2,
        Some(PromotionPiece::Knight) => 3,
        Some(PromotionPiece::Rook) => 4,
    }
}

/// The promotion field a byte stands for, if it stands for one.
pub open spec fn byte_promotion(x: u8) -> Option<Option<PromotionPiece>> {
    if x == 0 {
        Some(None)
    } else if x == 1 {
        Some(Some(PromotionPiece::Queen))
    } else if x == 2 {
        Some(Some(PromotionPiece::Bishop))
    } else if x == 3 {
        Some(Some(PromotionPiece::Knight))
    } else if x == 4 {
        Some(Some(PromotionPiece::Rook))
    } else {
        None
    }
}

pub open spec fn end_byte(e: Option<GameEnd>) -> u8 {
    match e {
        None => 0,
        Some(GameEnd::WhiteWins) => 1,
        Some(GameEnd::BlackWins) => 2,
        Some(GameEnd::Draw) => 3,
    }
}

/// The end-state field a byte stands for, if it stands for one.
pub open spec fn byte_end(x: u8) -> Option<Option<GameEnd>> {
    if x == 0 {
        Some(None)
    } else if x == 1 {
        Some(Some(GameEnd::WhiteWins))
    } else if x == 2 {
        Some(Some(GameEnd::BlackWins))
    } else if x == 3 {
        Some(Some(GameEnd::Draw))
    } else {
        None
    }
}

/// A move message is valid when every coordinate lies on the board.
pub open spec fn move_valid(m: MoveMessage) -> bool {
    m.from.wf() && m.to.wf()
}

/// The eight bytes of a move message.
pub open spec fn move_bytes(m: MoveMessage) -> Seq<u8> {
    seq![
        TAG_MOVE,
        m.from.file,
        m.from.rank,
        m.to.file,
        m.to.rank,
        promotion_byte(m.promotion),
        bool_byte(m.forfeit),
        bool_byte(m.offer_draw),
    ]
}

/// The move message a buffer holds, if it holds exactly one.
pub open spec fn parse_move_spec(b: Seq<u8>) -> Option<MoveMessage> {
    if b.len() == 8 && b[0] == TAG_MOVE && b[1] < 8 && b[2] < 8 && b[3] < 8 && b[4] < 8
        && byte_promotion(b[5]) is Some && byte_bool(b[6]) is Some && byte_bool(b[7]) is Some {
        Some(
            MoveMessage {
                from: Square { file: b[1], rank: b[2] },
                to: Square { file: b[3], rank: b[4] },
                promotion: byte_promotion(b[5])->Some_0,
                forfeit: byte_bool(b[6])->Some_0,
                offer_draw: byte_bool(b[7])->Some_0,
            },
        )
    } else {
        None
    }
}

/// The three bytes of an acknowledgement.
pub open spec fn ack_bytes(a: AckMessage) -> Seq<u8> {
    seq![TAG_ACK, bool_byte(a.ok), end_byte(a.end_state)]
}

/// The acknowledgement a buffer holds, if it holds exactly one.
pub open spec fn parse_ack_spec(b: Seq<u8>) -> Option<AckMessage> {
    if b.len() == 3 && b[0] == TAG_ACK && byte_bool(b[1]) is Some && byte_end(b[2]) is Some {
        Some(AckMessage { ok: byte_bool(b[1])->Some_0, end_state: byte_end(b[2])->Some_0 })
    } else {
        None
    }
}

fn bool_to_byte(b: bool) -> (r: u8)
    ensures
        r == bool_byte(b),
{
    if b {
        1
    } else {
        0
    }
}

fn byte_to_bool(x: u8) -> (r: Option<bool>)
    ensures
        r == byte_bool(x),
{
    if x == 0 {
        Some(false)
    } else if x == 1 {
        Some(true)
    } else {
        None
    }
}

fn promotion_to_byte(p: Option<PromotionPiece>) -> (r: u8)
    ensures
        r == promotion_byte(p),
{
    match p {
        None => 0,
        Some(PromotionPiece::Queen) => 1,
        Some(PromotionPiece::Bishop) => 2,
        Some(PromotionPiece::Knight) => 3,
        Some(PromotionPiece::Rook) => 4,
    }
}

fn byte_to_promotion(x: u8) -> (r: Option<Option<PromotionPiece>>)
    ensures
        r == byte_promotion(x),
{
    if x == 0 {
        Some(None)
    } else if x == 1 {
        Some(Some(PromotionPiece::Queen))
    } else if x == 2 {
        Some(Some(PromotionPiece::Bishop))
    } else if x == 3 {
        Some(Some(PromotionPiece::Knight))
    } else if x == 4 {
        Some(Some(PromotionPiece::Rook))
    } else {
        None
    }
}

fn end_to_byte(e: Option<GameEnd>) -> (r: u8)
    ensures
        r == end_byte(e),
{
    match e {
        None => 0,
        Some(GameEnd::WhiteWins) => 1,
        Some(GameEnd::BlackWins) => 2,
        Some(GameEnd::Draw) => 3,
    }
}

fn byte_to_end(x: u8) -> (r: Option<Option<GameEnd>>)
    ensures
        r == byte_end(x),
{
    if x == 0 {
        Some(None)
    } else if x == 1 {
        Some(Some(GameEnd::WhiteWins))
    } else if x == 2 {
        Some(Some(GameEnd::BlackWins))
    } else if x == 3 {
        Some(Some(GameEnd::Draw))
    } else {
        None
    }
}

/// Encodes a move message.
pub fn encode_move(m: &MoveMessage) -> (r: Vec<u8>)
    ensures
        r@ == move_bytes(*m),
        r@.len() <= MOVE_CAPACITY,
{
    let r = vec![
        TAG_MOVE,
        m.from.file,
        m.from.rank,
        m.to.file,
        m.to.rank,
        promotion_to_byte(m.promotion),
        bool_to_byte(m.forfeit),
        bool_to_byte(m.offer_draw),
    ];
    assert(r@ =~= move_bytes(*m));
    r
}

fn parse_move(b: &[u8]) -> (r: Option<MoveMessage>)
    ensures
        r == parse_move_spec(b@),
{
    if b.len() != 8 || b[0] != TAG_MOVE || b[1] >= 8 || b[2] >= 8 || b[3] >= 8 || b[4] >= 8 {
        return None;
    }
    match (byte_to_promotion(b[5]), byte_to_bool(b[6]), byte_to_bool(b[7])) {
        (Some(promotion), Some(forfeit), Some(offer_draw)) => Some(
            MoveMessage {
                from: Square { file: b[1], rank: b[2] },
                to: Square { file: b[3], rank: b[4] },
                promotion,
                forfeit,
                offer_draw,
            },
        ),
        _ => None,
    }
}

/// Encodes an acknowledgement.
pub fn encode_ack(a: &AckMessage) -> (r: Vec<u8>)
    ensures
        r@ == ack_bytes(*a),
        r@.len() <= ACK_CAPACITY,
{
    let r = vec![TAG_ACK, bool_to_byte(a.ok), end_to_byte(a.end_state)];
    assert(r@ =~= ack_bytes(*a));
    r
}

fn parse_ack(b: &[u8]) -> (r: Option<AckMessage>)
    ensures
        r == parse_ack_spec(b@),
{
    if b.len() != 3 || b[0] != TAG_ACK {
        return None;
    }
    match (byte_to_bool(b[1]), byte_to_end(b[2])) {
        (Some(ok), Some(end_state)) => Some(AckMessage { ok, end_state }),
        _ => None,
    }
}


/// The message each peer sends once, right after connecting.
#[derive(Clone, Debug, PartialEq, Eq)]
pub struct StartMessage {
    /// Whether the sender plays white.
    pub is_white: bool,
    pub name: Option<String>,
    /// A position to resume from.
    pub fen: Option<String>,
    /// Clock, in seconds.
    pub time: Option<u64>,
    /// Increment per move, in seconds.
    pub inc: Option<u64>,
}

/// A start message with its texts as characters.
pub struct StartView {
    pub is_white: bool,
    pub name: Option<Seq<char>>,
    pub fen: Option<Seq<char>>,
    pub time: Option<u64>,
    pub inc: Option<u64>,
}

pub open spec fn text_view(t: Option<String>) -> Option<Seq<char>> {
    match t {
        None => None,
        Some(s) => Some(s@),
    }
}

impl View for StartMessage {
    type V = StartView;

    open spec fn view(&self) -> StartView {
        StartView {
            is_white: self.is_white,
            name: text_view(self.name),
            fen: text_view(self.fen),
            time: self.time,
            inc: self.inc,
        }
    }
}

/// The eight bytes of a clock value, most significant first.
pub open spec fn u64_bytes(v: u64) -> Seq<u8> {
    seq![
        (v >> 56u64) as u8,
        (v >> 48u64) as u8,
        (v >> 40u64) as u8,
        (v >> 32u64) as u8,
        (v >> 24u64) as u8,
        (v >> 16u64) as u8,
        (v >> 8u64) as u8,
        v as u8,
    ]
}

/// The value of eight bytes, most significant first.
pub open spec fn bytes_u64(b: Seq<u8>) -> u64 {
    (b[0] as u64) << 56u64 | (b[1] as u64) << 48u64 | (b[2] as u64) << 40u64 | (b[3] as u64)
        << 32u64 | (b[4] as u64) << 24u64 | (b[5] as u64) << 16u64 | (b[6] as u64) << 8u64 | (
    b[7] as u64)
}

/// An absent clock value is one zero byte; a present one is a one byte and its eight bytes.
pub open spec fn opt_u64_bytes(o: Option<u64>) -> Seq<u8> {
    match o {
        None => seq![0u8],
        Some(v) => seq![1u8] + u64_bytes(v),
    }
}

/// An absent text is one zero byte; a present one is a one byte, its length
/// in bytes and its UTF-8 bytes.
pub open spec fn opt_text_bytes(o: Option<Seq<char>>) -> Seq<u8> {
    match o {
        None => seq![0u8],
        Some(t) => seq![1u8, encode_utf8(t).len() as u8] + encode_utf8(t),
    }
}

/// The bytes of a start message.
pub open spec fn start_bytes(m: StartView) -> Seq<u8> {
    seq![TAG_START, bool_byte(m.is_white)] + (opt_u64_bytes(m.time) + (opt_u64_bytes(m.inc) + (
    opt_text_bytes(m.name) + opt_text_bytes(m.fen))))
}

/// A start message is valid when its encoding fits the receive buffer.
pub open spec fn start_valid(m: StartView) -> bool {
    start_bytes(m).len() <= START_CAPACITY
}

/// An optional clock value at the front of `b`, and what follows it.
pub open spec fn parse_opt_u64(b: Seq<u8>) -> Option<(Option<u64>, Seq<u8>)> {
    if b.len() >= 1 && b[0] == 0 {
        Some((None, b.subrange(1, b.len() as int)))
    } else if b.len() >= 9 && b[0] == 1 {
        Some((Some(bytes_u64(b.subrange(1, 9))), b.subrange(9, b.len() as int)))
    } else {
        None
    }
}

/// An optional text at the front of `b`, and what follows it.
pub open spec fn parse_opt_text(b: Seq<u8>) -> Option<(Option<Seq<char>>, Seq<u8>)> {
    if b.len() >= 1 && b[0] == 0 {
        Some((None, b.subrange(1, b.len() as int)))
    } else if b.len() >= 2 && b[0] == 1 && b.len() >= 2 + b[1] && valid_utf8(
        b.subrange(2, 2 + b[1]),
    ) {
        Some((Some(decode_utf8(b.subrange(2, 2 + b[1]))), b.subrange(2 + b[1], b.len() as int)))
    } else {
        None
    }
}

/// The start message a buffer holds, if it holds exactly one.
pub open spec fn parse_start_spec(b: Seq<u8>) -> Option<StartView> {
    if b.len() <= START_CAPACITY && b.len() >= 2 && b[0] == TAG_START && byte_bool(b[1]) is Some {
        match parse_opt_u64(b.subrange(2, b.len() as int)) {
            None => None,
            Some((time, r1)) => match parse_opt_u64(r1) {
                None => None,
                Some((inc, r2)) => match parse_opt_text(r2) {
                    None => None,
                    Some((name, r3)) => match parse_opt_text(r3) {
                        None => None,
                        Some((fen, r4)) => if r4.len() == 0 {
                            Some(
                                StartView {
                                    is_white: byte_bool(b[1])->Some_0,
                                    name,
                                    fen,
                                    time,
                                    inc,
                                },
                            )
                        } else {
                            None
                        },
                    },
                },
            },
        }
    } else {
        None
    }
}

proof fn lemma_u64_bytes(v: u64)
    ensures
        bytes_u64(u64_bytes(v)) == v,
{
    let b = u64_bytes(v);
    let (b0, b1, b2, b3, b4, b5, b6, b7) = (b[0], b[1], b[2], b[3], b[4], b[5], b[6], b[7]);
    assert(b0 == (v >> 56u64) as u8 && b1 == (v >> 48u64) as u8 && b2 == (v >> 40u64) as u8 && b3
        == (v >> 32u64) as u8 && b4 == (v >> 24u64) as u8 && b5 == (v >> 16u64) as u8 && b6 == (v
        >> 8u64) as u8 && b7 == v as u8);
    assert(((v >> 56u64) as u8 as u64) << 56u64 | ((v >> 48u64) as u8 as u64) << 48u64 | ((v
        >> 40u64) as u8 as u64) << 40u64 | ((v >> 32u64) as u8 as u64) << 32u64 | ((v >> 24u64) as u8
        as u64) << 24u64 | ((v >> 16u64) as u8 as u64) << 16u64 | ((v >> 8u64) as u8 as u64)
        << 8u64 | (v as u8 as u64) == v) by (bit_vector);
}

proof fn lemma_bytes_u64(b: Seq<u8>)
    requires
        b.len() == 8,
    ensures
        u64_bytes(bytes_u64(b)) == b,
{
    let (b0, b1, b2, b3, b4, b5, b6, b7) = (b[0], b[1], b[2], b[3], b[4], b[5], b[6], b[7]);
    let v = bytes_u64(b);
    assert(v == (b0 as u64) << 56u64 | (b1 as u64) << 48u64 | (b2 as u64) << 40u64 | (b3 as u64)
        << 32u64 | (b4 as u64) << 24u64 | (b5 as u64) << 16u64 | (b6 as u64) << 8u64 | (b7 as u64));
    assert((v >> 56u64) as u8 == b0 && (v >> 48u64) as u8 == b1 && (v >> 40u64) as u8 == b2 && (v
        >> 32u64) as u8 == b3 && (v >> 24u64) as u8 == b4 && (v >> 16u64) as u8 == b5 && (v
        >> 8u64) as u8 == b6 && v as u8 == b7) by (bit_vector)
        requires
            v == (b0 as u64) << 56u64 | (b1 as u64) << 48u64 | (b2 as u64) << 40u64 | (b3 as u64)
                << 32u64 | (b4 as u64) << 24u64 | (b5 as u64) << 16u64 | (b6 as u64) << 8u64 | (
            b7 as u64),
    ;
    assert(u64_bytes(v) =~= b);
}

proof fn lemma_opt_u64_round(o: Option<u64>, rest: Seq<u8>)
    ensures
        parse_opt_u64(opt_u64_bytes(o) + rest) == Some((o, rest)),
{
    let b = opt_u64_bytes(o) + rest;
    match o {
        None => {
            assert(b.subrange(1, b.len() as int) =~= rest);
        },
        Some(v) => {
            assert(b.subrange(1, 9) =~= u64_bytes(v));
            assert(b.subrange(9, b.len() as int) =~= rest);
            lemma_u64_bytes(v);
        },
    }
}

proof fn lemma_opt_u64_canonical(b: Seq<u8>)
    requires
        parse_opt_u64(b) is Some,
    ensures
        b == opt_u64_bytes(parse_opt_u64(b)->Some_0.0) + parse_opt_u64(b)->Some_0.1,
{
    if b[0] == 0 {
        assert(b =~= seq![0u8] + b.subrange(1, b.len() as int));
    } else {
        lemma_bytes_u64(b.subrange(1, 9));
        assert(b =~= seq![1u8] + b.subrange(1, 9) + b.subrange(9, b.len() as int));
    }
}

proof fn lemma_opt_text_round(o: Option<Seq<char>>, rest: Seq<u8>)
    requires
        o is Some ==> encode_utf8(o->Some_0).len() < 256,
    ensures
        parse_opt_text(opt_text_bytes(o) + rest) == Some((o, rest)),
{
    let b = opt_text_bytes(o) + rest;
    match o {
        None => {
            assert(b.subrange(1, b.len() as int) =~= rest);
        },
        Some(t) => {
            let e = encode_utf8(t);
            assert(b[1] == e.len());
            assert(b.subrange(2, 2 + b[1]) =~= e);
            assert(b.subrange(2 + b[1], b.len() as int) =~= rest);
            encode_utf8_valid_utf8(t);
            encode_utf8_decode_utf8(t);
        },
    }
}

proof fn lemma_opt_text_canonical(b: Seq<u8>)
    requires
        parse_opt_text(b) is Some,
    ensures
        b == opt_text_bytes(parse_opt_text(b)->Some_0.0) + parse_opt_text(b)->Some_0.1,
{
    if b[0] == 0 {
        assert(b =~= seq![0u8] + b.subrange(1, b.len() as int));
    } else {
        let body = b.subrange(2, 2 + b[1]);
        decode_utf8_encode_utf8(body);
        assert(encode_utf8(decode_utf8(body)) == body);
        assert(b =~= seq![1u8, body.len() as u8] + body + b.subrange(2 + b[1], b.len() as int));
    }
}

/// Decoding the encoding of a valid start message gives back that message.
pub proof fn lemma_start_round_trip(m: StartView)
    requires
        start_valid(m),
    ensures
        parse_start_spec(start_bytes(m)) == Some(m),
{
    let b = start_bytes(m);
    let t = opt_u64_bytes(m.time);
    let i = opt_u64_bytes(m.inc);
    let n = opt_text_bytes(m.name);
    let f = opt_text_bytes(m.fen);
    let empty = Seq::<u8>::empty();
    assert(b.subrange(2, b.len() as int) =~= t + (i + (n + f)));
    lemma_opt_u64_round(m.time, i + (n + f));
    lemma_opt_u64_round(m.inc, n + f);
    lemma_opt_text_round(m.name, f);
    assert(f =~= f + empty);
    lemma_opt_text_round(m.fen, empty);
}

/// A buffer that decodes as a start message is exactly that message's encoding,
/// and the message is valid.
pub proof fn lemma_start_canonical(b: Seq<u8>)
    requires
        parse_start_spec(b) is Some,
    ensures
        start_bytes(parse_start_spec(b)->Some_0) == b,
        start_valid(parse_start_spec(b)->Some_0),
{
    let r0 = b.subrange(2, b.len() as int);
    let (_, r1) = parse_opt_u64(r0)->Some_0;
    let (_, r2) = parse_opt_u64(r1)->Some_0;
    let (_, r3) = parse_opt_text(r2)->Some_0;
    let (_, r4) = parse_opt_text(r3)->Some_0;
    lemma_opt_u64_canonical(r0);
    lemma_opt_u64_canonical(r1);
    lemma_opt_text_canonical(r2);
    lemma_opt_text_canonical(r3);
    let m = parse_start_spec(b)->Some_0;
    assert(r3 =~= opt_text_bytes(m.fen));
    assert(b =~= seq![TAG_START, bool_byte(m.is_white)] + r0);
}


/// Decoding the encoding of a valid move message gives back that message.
pub proof fn lemma_move_round_trip(m: MoveMessage)
    requires
        move_valid(m),
    ensures
        parse_move_spec(move_bytes(m)) == Some(m),
{
    let b = move_bytes(m);
    assert(byte_promotion(b[5]) == Some(m.promotion));
    assert(byte_bool(b[6]) == Some(m.forfeit));
    assert(byte_bool(b[7]) == Some(m.offer_draw));
}

/// A buffer that decodes as a move message is exactly that message's encoding,
/// and the message is valid.
pub proof fn lemma_move_canonical(b: Seq<u8>)
    requires
        parse_move_spec(b) is Some,
    ensures
        move_bytes(parse_move_spec(b)->Some_0) == b,
        move_valid(parse_move_spec(b)->Some_0),
{
    assert(move_bytes(parse_move_spec(b)->Some_0) =~= b);
}

/// Decoding the encoding of an acknowledgement gives back that acknowledgement.
pub proof fn lemma_ack_round_trip(a: AckMessage)
    ensures
        parse_ack_spec(ack_bytes(a)) == Some(a),
{
    let b = ack_bytes(a);
    assert(byte_bool(b[1]) == Some(a.ok));
    assert(byte_end(b[2]) == Some(a.end_state));
}

/// A buffer that decodes as an acknowledgement is exactly that acknowledgement's encoding.
pub proof fn lemma_ack_canonical(b: Seq<u8>)
    requires
        parse_ack_spec(b) is Some,
    ensures
        ack_bytes(parse_ack_spec(b)->Some_0) == b,
{
    assert(ack_bytes(parse_ack_spec(b)->Some_0) =~= b);
}

/// Relies on String::from_utf8: it accepts exactly the valid UTF-8 byte
/// vectors, and the string then holds the characters those bytes encode.
#[verifier::external_body]
fn string_from_utf8(v: Vec<u8>) -> (r: Option<String>)
    ensures
        r is Some <==> valid_utf8(v@),
        r is Some ==> r->Some_0@ == decode_utf8(v@),
{
    String::from_utf8(v).ok()
}

fn push_opt_u64(out: &mut Vec<u8>, o: Option<u64>)
    ensures
        final(out)@ == old(out)@ + opt_u64_bytes(o),
{
    match o {
        None => out.push(0),
        Some(v) => {
            out.push(1);
            out.push((v >> 56u64) as u8);
            out.push((v >> 48u64) as u8);
            out.push((v >> 40u64) as u8);
            out.push((v >> 32u64) as u8);
            out.push((v >> 24u64) as u8);
            out.push((v >> 16u64) as u8);
            out.push((v >> 8u64) as u8);
            out.push(v as u8);
        },
    }
    assert(out@ =~= old(out)@ + opt_u64_bytes(o));
}

fn push_opt_text(out: &mut Vec<u8>, o: &Option<String>)
    requires
        o is Some ==> encode_utf8(o->Some_0@).len() < 256,
    ensures
        final(out)@ == old(out)@ + opt_text_bytes(text_view(*o)),
{
    match o {
        None => {
            out.push(0);
            assert(out@ =~= old(out)@ + opt_text_bytes(text_view(*o)));
        },
        Some(t) => {
            let bytes = t.as_str().as_bytes();
            out.push(1);
            out.push(bytes.len() as u8);
            let ghost start = out@;
            let mut i: usize = 0;
            while i < bytes.len()
                invariant
                    i <= bytes@.len(),
                    out@ == start + bytes@.subrange(0, i as int),
                decreases bytes@.len() - i,
            {
                out.push(bytes[i]);
                i = i + 1;
                assert(out@ =~= start + bytes@.subrange(0, i as int));
            }
            assert(bytes@.subrange(0, i as int) =~= bytes@);
            assert(out@ =~= old(out)@ + opt_text_bytes(text_view(*o)));
        },
    }
}

fn text_len(o: &Option<String>) -> (r: usize)
    ensures
        o is None ==> r == 0,
        o is Some ==> r == encode_utf8(o->Some_0@).len(),
{
    match o {
        None => 0,
        Some(t) => t.as_str().as_bytes().len(),
    }
}

proof fn lemma_start_len(m: StartView)
    ensures
        start_bytes(m).len() == 2 + opt_u64_bytes(m.time).len() + opt_u64_bytes(m.inc).len()
            + opt_text_bytes(m.name).len() + opt_text_bytes(m.fen).len(),
        opt_u64_bytes(m.time).len() == if m.time is Some {
            9int
        } else {
            1int
        },
        opt_u64_bytes(m.inc).len() == if m.inc is Some {
            9int
        } else {
            1int
        },
        m.name is Some ==> opt_text_bytes(m.name).len() == 2 + encode_utf8(m.name->Some_0).len(),
        m.name is None ==> opt_text_bytes(m.name).len() == 1,
        m.fen is Some ==> opt_text_bytes(m.fen).len() == 2 + encode_utf8(m.fen->Some_0).len(),
        m.fen is None ==> opt_text_bytes(m.fen).len() == 1,
{
}

fn opt_u64_len(o: Option<u64>) -> (r: usize)
    ensures
        r == opt_u64_bytes(o).len(),
{
    match o {
        None => 1,
        Some(_) => 9,
    }
}

/// Encodes a start message; `None` when its encoding would not fit the
/// receive buffer.
pub fn encode_start(m: &StartMessage) -> (r: Option<Vec<u8>>)
    ensures
        r is Some <==> start_valid(m@),
        r is Some ==> r->Some_0@ == start_bytes(m@),
{
    proof {
        lemma_start_len(m@);
    }
    let nlen = text_len(&m.name);
    let flen = text_len(&m.fen);
    if nlen > START_CAPACITY || flen > START_CAPACITY {
        return None;
    }
    let nfield: usize = if m.name.is_some() {
        2 + nlen
    } else {
        1
    };
    let ffield: usize = if m.fen.is_some() {
        2 + flen
    } else {
        1
    };
    let size = 2 + opt_u64_len(m.time) + opt_u64_len(m.inc) + nfield + ffield;
    assert(size == start_bytes(m@).len());
    if size > START_CAPACITY {
        return None;
    }
    let mut out: Vec<u8> = Vec::new();
    out.push(TAG_START);
    out.push(bool_to_byte(m.is_white));
    push_opt_u64(&mut out, m.time);
    push_opt_u64(&mut out, m.inc);
    push_opt_text(&mut out, &m.name);
    push_opt_text(&mut out, &m.fen);
    assert(out@ =~= start_bytes(m@));
    Some(out)
}

fn read_opt_u64(b: &[u8], pos: usize) -> (r: Option<(Option<u64>, usize)>)
    requires
        pos <= b@.len(),
    ensures
        parse_opt_u64(b@.subrange(pos as int, b@.len() as int)) is None ==> r is None,
        parse_opt_u64(b@.subrange(pos as int, b@.len() as int)) is Some ==> {
            &&& r is Some
            &&& pos < r->Some_0.1 <= b@.len()
            &&& parse_opt_u64(b@.subrange(pos as int, b@.len() as int)) == Some(
                (r->Some_0.0, b@.subrange(r->Some_0.1 as int, b@.len() as int)),
            )
        },
{
    let ghost rest = b@.subrange(pos as int, b@.len() as int);
    if pos < b.len() && b[pos] == 0 {
        assert(rest.subrange(1, rest.len() as int) =~= b@.subrange(pos + 1, b@.len() as int));
        Some((None, pos + 1))
    } else if b.len() - pos >= 9 && b[pos] == 1 {
        let v = (b[pos + 1] as u64) << 56u64 | (b[pos + 2] as u64) << 48u64 | (b[pos + 3] as u64)
            << 40u64 | (b[pos + 4] as u64) << 32u64 | (b[pos + 5] as u64) << 24u64 | (b[pos
            + 6] as u64) << 16u64 | (b[pos + 7] as u64) << 8u64 | (b[pos + 8] as u64);
        assert(rest.subrange(1, 9) =~= b@.subrange(pos + 1, pos + 9));
        assert(rest.subrange(9, rest.len() as int) =~= b@.subrange(pos + 9, b@.len() as int));
        assert(v == bytes_u64(rest.subrange(1, 9)));
        Some((Some(v), pos + 9))
    } else {
        None
    }
}

fn read_opt_text(b: &[u8], pos: usize) -> (r: Option<(Option<String>, usize)>)
    requires
        pos <= b@.len(),
    ensures
        parse_opt_text(b@.subrange(pos as int, b@.len() as int)) is None ==> r is None,
        parse_opt_text(b@.subrange(pos as int, b@.len() as int)) is Some ==> {
            &&& r is Some
            &&& pos < r->Some_0.1 <= b@.len()
            &&& parse_opt_text(b@.subrange(pos as int, b@.len() as int)) == Some(
                (text_view(r->Some_0.0), b@.subrange(r->Some_0.1 as int, b@.len() as int)),
            )
        },
{
    let ghost rest = b@.subrange(pos as int, b@.len() as int);
    if pos < b.len() && b[pos] == 0 {
        assert(rest.subrange(1, rest.len() as int) =~= b@.subrange(pos + 1, b@.len() as int));
        return Some((None, pos + 1));
    }
    if b.len() - pos < 2 || b[pos] != 1 {
        return None;
    }
    let n = b[pos + 1] as usize;
    if b.len() - pos - 2 < n {
        return None;
    }
    let end = pos + 2 + n;
    let mut body: Vec<u8> = Vec::new();
    let mut i: usize = pos + 2;
    while i < end
        invariant
            pos + 2 <= i <= end <= b@.len(),
            body@ == b@.subrange(pos + 2, i as int),
        decreases end - i,
    {
        body.push(b[i]);
        i = i + 1;
        assert(body@ =~= b@.subrange(pos + 2, i as int));
    }
    assert(rest.subrange(2, 2 + rest[1]) =~= body@);
    assert(rest.subrange(2 + rest[1], rest.len() as int) =~= b@.subrange(end as int, b@.len() as int));
    match string_from_utf8(body) {
        None => None,
        Some(t) => Some((Some(t), end)),
    }
}

fn parse_start(b: &[u8]) -> (r: Option<StartMessage>)
    ensures
        parse_start_spec(b@) is None ==> r is None,
        parse_start_spec(b@) is Some ==> r is Some && r->Some_0@ == parse_start_spec(b@)->Some_0,
{
    if b.len() > START_CAPACITY || b.len() < 2 || b[0] != TAG_START {
        return None;
    }
    let is_white = match byte_to_bool(b[1]) {
        Some(w) => w,
        None => return None,
    };
    let (time, p1) = match read_opt_u64(b, 2) {
        Some(x) => x,
        None => return None,
    };
    let (inc, p2) = match read_opt_u64(b, p1) {
        Some(x) => x,
        None => return None,
    };
    let (name, p3) = match read_opt_text(b, p2) {
        Some(x) => x,
        None => return None,
    };
    let (fen, p4) = match read_opt_text(b, p3) {
        Some(x) => x,
        None => return None,
    };
    if p4 != b.len() {
        return None;
    }
    Some(StartMessage { is_white, name, fen, time, inc })
}

/// Whether the buffer holds a message of any kind.
pub open spec fn is_message(b: Seq<u8>) -> bool {
    parse_start_spec(b) is Some || parse_move_spec(b) is Some || parse_ack_spec(b) is Some
}

/// The error for a buffer that is not a message of the expected kind.
pub open spec fn rejection(b: Seq<u8>, capacity: usize) -> DecodeError {
    if b.len() > capacity {
        DecodeError::Oversized
    } else if is_message(b) {
        DecodeError::WrongKind
    } else {
        DecodeError::Malformed
    }
}

fn reject(b: &[u8], capacity: usize) -> (r: DecodeError)
    ensures
        r == rejection(b@, capacity),
{
    if b.len() > capacity {
        DecodeError::Oversized
    } else if parse_start(b).is_some() || parse_move(b).is_some() || parse_ack(b).is_some() {
        DecodeError::WrongKind
    } else {
        DecodeError::Malformed
    }
}

/// Decodes a start message, all or nothing.
pub fn decode_start(b: &[u8]) -> (r: Result<StartMessage, DecodeError>)
    ensures
        parse_start_spec(b@) is Some ==> r is Ok && r->Ok_0@ == parse_start_spec(b@)->Some_0,
        parse_start_spec(b@) is None ==> r == Err::<StartMessage, DecodeError>(
            rejection(b@, START_CAPACITY),
        ),
{
    match parse_start(b) {
        Some(m) => Ok(m),
        None => Err(reject(b, START_CAPACITY)),
    }
}

/// Decodes a move message, all or nothing.
pub fn decode_move(b: &[u8]) -> (r: Result<MoveMessage, DecodeError>)
    ensures
        parse_move_spec(b@) is Some ==> r == Ok::<MoveMessage, DecodeError>(
            parse_move_spec(b@)->Some_0,
        ),
        parse_move_spec(b@) is None ==> r == Err::<MoveMessage, DecodeError>(
            rejection(b@, MOVE_CAPACITY),
        ),
{
    match parse_move(b) {
        Some(m) => Ok(m),
        None => Err(reject(b, MOVE_CAPACITY)),
    }
}

/// Decodes an acknowledgement, all or nothing.
pub fn decode_ack(b: &[u8]) -> (r: Result<AckMessage, DecodeError>)
    ensures
        parse_ack_spec(b@) is Some ==> r == Ok::<AckMessage, DecodeError>(
            parse_ack_spec(b@)->Some_0,
        ),
        parse_ack_spec(b@) is None ==> r == Err::<AckMessage, DecodeError>(
            rejection(b@, ACK_CAPACITY),
        ),
{
    match parse_ack(b) {
        Some(a) => Ok(a),
        None => Err(reject(b, ACK_CAPACITY)),
    }
}

} // verus!
