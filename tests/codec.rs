use netchess::board::Square;
use netchess::codec::{
    decode_ack, decode_move, decode_start, encode_ack, encode_move, encode_start, AckMessage,
    DecodeError, GameEnd, MoveMessage, PromotionPiece, StartMessage, TAG_ACK, TAG_MOVE,
    TAG_START,
};

fn sq(file: u8, rank: u8) -> Square {
    Square::new(file, rank)
}

fn sample_move() -> MoveMessage {
    MoveMessage {
        from: sq(4, 6),
        to: sq(4, 7),
        promotion: Some(PromotionPiece::Knight),
        forfeit: false,
        offer_draw: true,
    }
}

#[test]
fn move_encoding_is_exact() {
    let bytes = encode_move(&sample_move());
    assert_eq!(bytes, vec![TAG_MOVE, 4, 6, 4, 7, 3, 0, 1]);
}

#[test]
fn move_round_trip_all_promotions() {
    let pieces = [
        None,
        Some(PromotionPiece::Queen),
        Some(PromotionPiece::Bishop),
        Some(PromotionPiece::Knight),
        Some(PromotionPiece::Rook),
    ];
    for p in pieces {
        for flags in [(false, false), (true, false), (false, true), (true, true)] {
            let m = MoveMessage {
                from: sq(0, 7),
                to: sq(7, 0),
                promotion: p,
                forfeit: flags.0,
                offer_draw: flags.1,
            };
            assert_eq!(decode_move(&encode_move(&m)), Ok(m));
        }
    }
}

#[test]
fn ack_round_trip_and_bytes() {
    let ends = [None, Some(GameEnd::WhiteWins), Some(GameEnd::BlackWins), Some(GameEnd::Draw)];
    for end_state in ends {
        for ok in [true, false] {
            let a = AckMessage { ok, end_state };
            assert_eq!(decode_ack(&encode_ack(&a)), Ok(a));
        }
    }
    let a = AckMessage { ok: true, end_state: Some(GameEnd::Draw) };
    assert_eq!(encode_ack(&a), vec![TAG_ACK, 1, 3]);
}

#[test]
fn start_round_trip_with_every_field() {
    let m = StartMessage {
        is_white: false,
        name: Some("Élise".to_string()),
        fen: Some("rnbqkbnr/pppppppp/8/8/4P3/8/PPPP1PPP/RNBQKBNR b KQkq - 0 1".to_string()),
        time: Some(300),
        inc: Some(0x0102030405060708),
    };
    let bytes = encode_start(&m).expect("fits");
    assert_eq!(bytes[0], TAG_START);
    assert_eq!(decode_start(&bytes), Ok(m));
}

#[test]
fn start_bare_bytes() {
    let m = StartMessage { is_white: true, name: None, fen: None, time: None, inc: None };
    let bytes = encode_start(&m).expect("fits");
    assert_eq!(bytes, vec![TAG_START, 1, 0, 0, 0, 0]);
    assert_eq!(decode_start(&bytes), Ok(m));
}

#[test]
fn start_clock_is_big_endian() {
    let m = StartMessage { is_white: true, name: None, fen: None, time: Some(258), inc: None };
    let bytes = encode_start(&m).expect("fits");
    assert_eq!(bytes, vec![TAG_START, 1, 1, 0, 0, 0, 0, 0, 0, 1, 2, 0, 0, 0]);
}

#[test]
fn start_text_bytes_are_utf8() {
    let m = StartMessage { is_white: true, name: Some("é".to_string()), fen: None, time: None, inc: None };
    let bytes = encode_start(&m).expect("fits");
    assert_eq!(bytes, vec![TAG_START, 1, 0, 0, 1, 2, 0xc3, 0xa9, 0]);
    let back = decode_start(&bytes).expect("decodes");
    assert_eq!(back.name.as_deref(), Some("é"));
}

#[test]
fn start_too_long_is_not_encoded() {
    let m = StartMessage {
        is_white: true,
        name: None,
        fen: Some("x".repeat(200)),
        time: None,
        inc: None,
    };
    assert_eq!(encode_start(&m), None);
    let fits = StartMessage { fen: Some("x".repeat(121)), ..m.clone() };
    assert_eq!(encode_start(&fits).map(|b| b.len()), Some(128));
    let over = StartMessage { fen: Some("x".repeat(122)), ..m };
    assert_eq!(encode_start(&over), None);
}

#[test]
fn start_invalid_utf8_is_malformed() {
    let bytes = vec![TAG_START, 1, 0, 0, 1, 1, 0xff, 0];
    assert_eq!(decode_start(&bytes), Err(DecodeError::Malformed));
}

#[test]
fn truncated_input_is_malformed() {
    let bytes = encode_move(&sample_move());
    for n in 0..bytes.len() {
        assert_eq!(decode_move(&bytes[..n]), Err(DecodeError::Malformed));
    }
    let start = vec![TAG_START, 1, 1, 0, 0];
    assert_eq!(decode_start(&start), Err(DecodeError::Malformed));
}

#[test]
fn trailing_bytes_are_malformed() {
    let mut bytes = encode_ack(&AckMessage { ok: true, end_state: None });
    bytes.push(0);
    assert_eq!(decode_ack(&bytes), Err(DecodeError::Malformed));
}

#[test]
fn off_board_square_is_malformed() {
    let bytes = vec![TAG_MOVE, 8, 0, 0, 0, 0, 0, 0];
    assert_eq!(decode_move(&bytes), Err(DecodeError::Malformed));
}

#[test]
fn wrong_kind_is_reported() {
    let ack = encode_ack(&AckMessage { ok: false, end_state: None });
    assert_eq!(decode_move(&ack), Err(DecodeError::WrongKind));
    let mv = encode_move(&sample_move());
    assert_eq!(decode_ack(&mv), Err(DecodeError::WrongKind));
    assert_eq!(decode_start(&mv), Err(DecodeError::WrongKind));
}

#[test]
fn oversized_input_is_rejected() {
    let big = vec![0u8; 129];
    assert_eq!(decode_move(&big), Err(DecodeError::Oversized));
    assert_eq!(decode_start(&big), Err(DecodeError::Oversized));
    assert_eq!(decode_ack(&big), Err(DecodeError::Malformed));
    let bigger = vec![TAG_ACK; 1025];
    assert_eq!(decode_ack(&bigger), Err(DecodeError::Oversized));
}

#[test]
fn garbage_never_panics_and_accepts_only_encodings() {
    let mut state: u32 = 12345;
    for _ in 0..2000 {
        state = state.wrapping_mul(1103515245).wrapping_add(12345);
        let len = (state >> 16) as usize % 16;
        let mut buf = Vec::new();
        for _ in 0..len {
            state = state.wrapping_mul(1103515245).wrapping_add(12345);
            buf.push((state >> 16) as u8);
        }
        if let Ok(m) = decode_move(&buf) {
            assert_eq!(encode_move(&m), buf);
        }
        if let Ok(a) = decode_ack(&buf) {
            assert_eq!(encode_ack(&a), buf);
        }
        if let Ok(s) = decode_start(&buf) {
            assert_eq!(encode_start(&s), Some(buf.clone()));
        }
    }
}

#[test]
fn square_numbering() {
    assert_eq!(sq(4, 1).index(), 12);
    assert_eq!(Square::from_index(28), sq(4, 3));
    assert_eq!(Square::from_index(63).index(), 63);
}
