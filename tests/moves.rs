use chess_bot::moves::{parse_move, read_move_command, Coord, MoveCommand, MoveSpec, Promotion};

fn sq(file: u8, rank: u8) -> Coord {
    Coord { file, rank }
}

#[test]
fn parse_plain_move() {
    assert_eq!(
        parse_move("e2e4"),
        Some(MoveSpec { from: sq(4, 1), to: sq(4, 3), promotion: None })
    );
}

#[test]
fn parse_promotion_move() {
    assert_eq!(
        parse_move("e7e8q"),
        Some(MoveSpec { from: sq(4, 6), to: sq(4, 7), promotion: Some(Promotion::Queen) })
    );
    assert_eq!(parse_move("a2a1r").unwrap().promotion, Some(Promotion::Rook));
    assert_eq!(parse_move("a2a1n").unwrap().promotion, Some(Promotion::Knight));
    assert_eq!(parse_move("a2a1b").unwrap().promotion, Some(Promotion::Bishop));
}

#[test]
fn parse_rejects_out_of_grammar() {
    for s in ["z9z9", "", "e2e", "e2e4qq", "e2e4k", "E2E4", "e0e4", "i1a1", "e2 e4", "e2e9"] {
        assert_eq!(parse_move(s), None, "{s}");
    }
}

#[test]
fn parse_is_deterministic() {
    assert_eq!(parse_move("h8a1"), parse_move("h8a1"));
    assert_eq!(parse_move("h8a1"), Some(MoveSpec { from: sq(7, 7), to: sq(0, 0), promotion: None }));
}

#[test]
fn parse_agrees_with_the_pattern() {
    let pattern = regex::Regex::new("^([a-h][1-8])([a-h][1-8])(r|n|b|q)?$").unwrap();
    let alphabet = ['a', 'e', 'h', 'i', '0', '1', '8', '9', 'q', 'k', 'r'];
    let mut count = 0;
    for a in alphabet {
        for b in alphabet {
            for c in alphabet {
                for d in alphabet {
                    let four: String = [a, b, c, d].iter().collect();
                    assert_eq!(parse_move(&four).is_some(), pattern.is_match(&four), "{four}");
                    for e in ['q', 'n', 'x', '1'] {
                        let five = format!("{four}{e}");
                        assert_eq!(parse_move(&five).is_some(), pattern.is_match(&five), "{five}");
                        count += 1;
                    }
                }
            }
        }
    }
    assert!(count > 0);
}

#[test]
fn coordinates_and_index() {
    assert_eq!(Coord::from_chars('a', '1'), Some(sq(0, 0)));
    assert_eq!(Coord::from_chars('h', '8'), Some(sq(7, 7)));
    assert_eq!(Coord::from_chars('i', '1'), None);
    assert_eq!(Coord::from_chars('a', '9'), None);
    assert_eq!(sq(4, 1).index(), 12);
    assert_eq!(sq(7, 7).index(), 63);
}

#[test]
fn move_command_kinds() {
    assert_eq!(read_move_command("hello"), MoveCommand::NotAMove);
    assert_eq!(read_move_command(""), MoveCommand::NotAMove);
    assert_eq!(read_move_command("!moves e2e4"), MoveCommand::NotAMove);
    assert_eq!(read_move_command("!move"), MoveCommand::MissingArgument);
    assert_eq!(read_move_command("  !move   "), MoveCommand::MissingArgument);
    assert_eq!(read_move_command("!move z9z9"), MoveCommand::Malformed);
    assert_eq!(
        read_move_command("!move\te2e4 extra"),
        MoveCommand::Move(MoveSpec { from: sq(4, 1), to: sq(4, 3), promotion: None })
    );
}
