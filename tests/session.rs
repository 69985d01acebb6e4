use chess::{Color, Piece, Square};
use chess_bot::commands::play_chess::{get_color, ColorChoice};
use chess_bot::commands::Chess;
use chess_bot::moves::{Coord, MoveSpec, Promotion};
use chess_bot::session::{move_usage_hint, GameSession, SessionOutcome, Side};

const ALICE: &str = "01ARZ3NDEKTSV4RRFFQ69G5FAV";
const BOB: &str = "A1B2C3D4E5F6G7H8J9K1M2N3P4";
const ROOM: &str = "room";

fn session(side: Side) -> GameSession {
    GameSession::new(ROOM.to_string(), ALICE.to_string(), BOB.to_string(), side)
}

fn e2e4() -> MoveSpec {
    MoveSpec { from: Coord { file: 4, rank: 1 }, to: Coord { file: 4, rank: 3 }, promotion: None }
}

#[test]
fn new_session_white_initiator_moves_first() {
    let s = Chess.start_session(ROOM.to_string(), ALICE.to_string(), BOB.to_string(), Side::White);
    assert_eq!(s.initiator_side, Side::White);
    assert!(s.initiator_to_move);
    assert_eq!(s.current_player(), ALICE);
    assert_eq!(s.side_to_move(), Side::White);
    assert_eq!(s.board.current_position(), chess::Board::default());
}

#[test]
fn new_session_black_initiator_waits() {
    let s = session(Side::Black);
    assert!(!s.initiator_to_move);
    assert_eq!(s.current_player(), BOB);
    assert_eq!(s.side_to_move(), Side::White);
}

#[test]
fn turn_holder_move_is_played() {
    let mut s = session(Side::White);
    assert_eq!(s.handle_message(ALICE, ROOM, "!move e2e4"), SessionOutcome::Accepted(e2e4()));
    let board = s.board.current_position();
    assert_eq!(board.piece_on(Square::E4), Some(Piece::Pawn));
    assert_eq!(board.color_on(Square::E4), Some(Color::White));
    assert_eq!(board.piece_on(Square::E2), None);
    assert_eq!(board.side_to_move(), Color::Black);
    assert!(!s.initiator_to_move);
    assert_eq!(s.current_player(), BOB);
}

#[test]
fn promotion_is_applied() {
    let mut s = session(Side::White);
    let opening = [
        (ALICE, "!move f2f4"),
        (BOB, "!move d7d6"),
        (ALICE, "!move f4f5"),
        (BOB, "!move e8d7"),
        (ALICE, "!move f5f6"),
        (BOB, "!move d7c6"),
        (ALICE, "!move f6e7"),
        (BOB, "!move a7a6"),
    ];
    for (who, text) in opening {
        assert!(matches!(s.handle_message(who, ROOM, text), SessionOutcome::Accepted(_)), "{text}");
    }
    let outcome = s.handle_message(ALICE, ROOM, "!move e7e8q");
    assert_eq!(
        outcome,
        SessionOutcome::Accepted(MoveSpec {
            from: Coord { file: 4, rank: 6 },
            to: Coord { file: 4, rank: 7 },
            promotion: Some(Promotion::Queen),
        })
    );
    let board = s.board.current_position();
    assert_eq!(board.piece_on(Square::E8), Some(Piece::Queen));
    assert_eq!(board.color_on(Square::E8), Some(Color::White));
    assert_eq!(board.piece_on(Square::E7), None);
    assert!(!s.initiator_to_move);
}

#[test]
fn underpromotion_is_applied() {
    let mut s = session(Side::White);
    for (who, text) in [
        (ALICE, "!move f2f4"),
        (BOB, "!move d7d6"),
        (ALICE, "!move f4f5"),
        (BOB, "!move e8d7"),
        (ALICE, "!move f5f6"),
        (BOB, "!move d7c6"),
        (ALICE, "!move f6e7"),
        (BOB, "!move a7a6"),
        (ALICE, "!move e7e8n"),
    ] {
        assert!(matches!(s.handle_message(who, ROOM, text), SessionOutcome::Accepted(_)), "{text}");
    }
    assert_eq!(s.board.current_position().piece_on(Square::E8), Some(Piece::Knight));
}

#[test]
fn malformed_move_changes_nothing() {
    let mut s = session(Side::White);
    assert_eq!(s.handle_message(ALICE, ROOM, "!move z9z9"), SessionOutcome::Malformed);
    assert!(s.initiator_to_move);
    assert_eq!(s.board.current_position(), chess::Board::default());
}

#[test]
fn non_turn_player_is_ignored() {
    let mut s = session(Side::White);
    for text in ["!move e7e5", "!move e2e4", "!move z9z9", "!move", "hello"] {
        assert_eq!(s.handle_message(BOB, ROOM, text), SessionOutcome::Ignored);
        assert!(s.initiator_to_move);
        assert_eq!(s.board.current_position(), chess::Board::default());
    }
}

#[test]
fn other_conversation_is_ignored() {
    let mut s = session(Side::White);
    assert_eq!(s.handle_message(ALICE, "elsewhere", "!move e2e4"), SessionOutcome::Ignored);
    assert!(s.initiator_to_move);
}

#[test]
fn missing_move_gets_usage_hint() {
    let mut s = session(Side::White);
    assert_eq!(s.handle_message(ALICE, ROOM, "!move"), SessionOutcome::UsageHint);
    assert!(s.initiator_to_move);
    assert_eq!(
        move_usage_hint(),
        "Expected UCI move argument. Usage:\n> !move [a-h][1-8][a-h][1-8](r|n|b|q)?"
    );
}

#[test]
fn illegal_move_keeps_turn() {
    let mut s = session(Side::White);
    let outcome = s.handle_message(ALICE, ROOM, "!move e2e5");
    assert!(matches!(outcome, SessionOutcome::Rejected(_)));
    assert!(s.initiator_to_move);
    assert_eq!(s.board.current_position(), chess::Board::default());
}

#[test]
fn turn_alternates_over_moves() {
    let mut s = session(Side::Black);
    let moves = [(BOB, "!move e2e4"), (ALICE, "!move e7e5"), (BOB, "!move g1f3"), (ALICE, "!move b8c6")];
    let start = s.initiator_to_move;
    for (n, (who, text)) in moves.iter().enumerate() {
        let before = s.initiator_to_move;
        assert!(matches!(s.handle_message(who, ROOM, text), SessionOutcome::Accepted(_)));
        assert_eq!(s.initiator_to_move, !before);
        assert_eq!(s.initiator_to_move == start, (n + 1) % 2 == 0);
    }
}

#[test]
fn colour_words() {
    assert_eq!(get_color("white"), Some(Side::White));
    assert_eq!(get_color("black"), Some(Side::Black));
    assert!(get_color("random").is_some());
    assert_eq!(get_color("purple"), None);
    assert_eq!(get_color("White"), None);
    assert_eq!(ColorChoice::Random.with_coin(true), Side::White);
    assert_eq!(ColorChoice::Random.with_coin(false), Side::Black);
    assert_eq!(Side::White.opposite(), Side::Black);
}
