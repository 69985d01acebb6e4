//! The move notation read inside a game: a start square, a target square and
//! an optional promotion letter, as in `e2e4` or `e7e8q`.

use vstd::prelude::*;

use crate::text::{same_text, split_words, views, words};

verus! {

/// The piece a pawn becomes when it reaches the last rank.
#[derive(Clone, Copy, Debug, PartialEq, Eq, Structural)]
pub enum Promotion {
    Rook,
    Knight,
    Bishop,
    Queen,
}

/// A square of the board: `file` 0 to 7 stands for `a` to `h`, `rank` 0 to 7
/// for `1` to `8`.
#[derive(Clone, Copy, Debug, PartialEq, Eq, Structural)]
pub struct Coord {
    pub file: u8,
    pub rank: u8,
}

/// A move as the notation gives it.
#[derive(Clone, Copy, Debug, PartialEq, Eq, Structural)]
pub struct MoveSpec {
    pub from: Coord,
    pub to: Coord,
    pub promotion: Option<Promotion>,
}

/// A file letter, `a` to `h`.
pub open spec fn is_file(c: char) -> bool {
    97 <= (c as u32) && (c as u32) <= 104
}

/// A rank digit, `1` to `8`.
pub open spec fn is_rank(c: char) -> bool {
    49 <= (c as u32) && (c as u32) <= 56
}

/// The square named by a file letter and a rank digit, if they are both in range.
pub open spec fn coord_of(file: char, rank: char) -> Option<Coord> {
    if is_file(file) && is_rank(rank) {
        Some(Coord { file: ((file as u32) - 97) as u8, rank: ((rank as u32) - 49) as u8 })
    } else {
        None
    }
}

/// The promotion letter `c` names: `r`, `n`, `b` or `q`.
pub open spec fn promotion_of(c: char) -> Option<Promotion> {
    if c == 'r' {
        Some(Promotion::Rook)
    } else if c == 'n' {
        Some(Promotion::Knight)
    } else if c == 'b' {
        Some(Promotion::Bishop)
    } else if c == 'q' {
        Some(Promotion::Queen)
    } else {
        None
    }
}

/// The move grammar: `[a-h][1-8][a-h][1-8]`, then at most one of `r`, `n`, `b`, `q`.
pub open spec fn move_grammar(s: Seq<char>) -> bool {
    &&& (s.len() == 4 || s.len() == 5)
    &&& is_file(s[0]) && is_rank(s[1])
    &&& is_file(s[2]) && is_rank(s[3])
    &&& s.len() == 5 ==> promotion_of(s[4]) is Some
}

/// What a string of the move grammar denotes; `None` off the grammar.
pub open spec fn decode_move(s: Seq<char>) -> Option<MoveSpec> {
    if move_grammar(s) {
        Some(
            MoveSpec {
                from: coord_of(s[0], s[1])->0,
                to: coord_of(s[2], s[3])->0,
                promotion: if s.len() == 5 {
                    promotion_of(s[4])
                } else {
                    None
                },
            },
        )
    } else {
        None
    }
}

/// The letter of a promotion piece.
pub open spec fn promotion_letter(p: Promotion) -> char {
    match p {
        Promotion::Rook => 'r',
        Promotion::Knight => 'n',
        Promotion::Bishop => 'b',
        Promotion::Queen => 'q',
    }
}

/// The two characters that name a square.
pub open spec fn coord_text(c: Coord) -> Seq<char> {
    seq![((c.file + 97) as u8) as char, ((c.rank + 49) as u8) as char]
}

/// The notation of a move.
pub open spec fn encode_move(m: MoveSpec) -> Seq<char> {
    let squares = coord_text(m.from) + coord_text(m.to);
    match m.promotion {
        Some(p) => squares.push(promotion_letter(p)),
        None => squares,
    }
}

impl Coord {
    /// Both coordinates are on the board.
    pub open spec fn valid(self) -> bool {
        self.file < 8 && self.rank < 8
    }

    /// The square named by a file letter and a rank digit; `None` when either
    /// is out of range.
    pub fn from_chars(file: char, rank: char) -> (r: Option<Coord>)
        ensures
            r == coord_of(file, rank),
            r matches Some(c) ==> c.valid(),
    {
        let f = file as u32;
        let k = rank as u32;
        if 97 <= f && f <= 104 && 49 <= k && k <= 56 {
            Some(Coord { file: (f - 97) as u8, rank: (k - 49) as u8 })
        } else {
            None
        }
    }

    /// The square's index on a board numbered rank by rank from `a1`.
    pub fn index(&self) -> (r: u8)
        requires
            self.valid(),
        ensures
            r == self.rank * 8 + self.file,
            r < 64,
    {
        self.rank * 8 + self.file
    }
}

/// The promotion piece of a letter.
pub fn promotion_from_char(c: char) -> (r: Option<Promotion>)
    ensures
        r == promotion_of(c),
{
    if c == 'r' {
        Some(Promotion::Rook)
    } else if c == 'n' {
        Some(Promotion::Knight)
    } else if c == 'b' {
        Some(Promotion::Bishop)
    } else if c == 'q' {
        Some(Promotion::Queen)
    } else {
        None
    }
}

/// Reads a move in the move grammar; anything else gives `None`.
pub fn parse_move(s: &str) -> (r: Option<MoveSpec>)
    ensures
        r == decode_move(s@),
        r matches Some(m) ==> m.from.valid() && m.to.valid(),
{
    let v = crate::text::chars_of(s);
    let n = v.len();
    if n != 4 && n != 5 {
        return None;
    }
    let from = match Coord::from_chars(v[0], v[1]) {
        Some(c) => c,
        None => return None,
    };
    let to = match Coord::from_chars(v[2], v[3]) {
        Some(c) => c,
        None => return None,
    };
    let promotion = if n == 5 {
        match promotion_from_char(v[4]) {
            Some(p) => Some(p),
            None => return None,
        }
    } else {
        None
    };
    Some(MoveSpec { from, to, promotion })
}

/// An ASCII character is the character of its own code.
proof fn lemma_ascii_char(c: char, code: int)
    requires
        code == c as u32,
        code < 128,
    ensures
        (code as u8) as char == c,
{
    assert(((c as u32) as u8) as char == c);
}

/// Every string of the move grammar reads as exactly one move, and that
/// move's notation is the string itself; every other string reads as none.
pub proof fn lemma_move_grammar_total(s: Seq<char>)
    ensures
        move_grammar(s) <==> decode_move(s) is Some,
        move_grammar(s) ==> encode_move(decode_move(s)->0) == s,
        move_grammar(s) ==> decode_move(s)->0.from.valid() && decode_move(s)->0.to.valid(),
{
    if move_grammar(s) {
        let m = decode_move(s)->0;
        lemma_ascii_char(s[0], m.from.file + 97);
        lemma_ascii_char(s[1], m.from.rank + 49);
        lemma_ascii_char(s[2], m.to.file + 97);
        lemma_ascii_char(s[3], m.to.rank + 49);
        assert(coord_text(m.from) =~= s.subrange(0, 2));
        assert(coord_text(m.to) =~= s.subrange(2, 4));
        assert(encode_move(m) =~= s);
    }
}

/// What a chat message means to a game in progress.
#[derive(Clone, Copy, Debug, PartialEq, Eq, Structural)]
pub enum MoveCommand {
    /// The message does not begin with the `!move` word.
    NotAMove,
    /// `!move` with nothing after it.
    MissingArgument,
    /// `!move` followed by a word off the move grammar.
    Malformed,
    /// `!move` followed by a move.
    Move(MoveSpec),
}

/// The word that opens a move message.
pub open spec fn move_word() -> Seq<char> {
    "!move"@
}

/// What the message text `t` means to a game in progress.
pub open spec fn move_command_of(t: Seq<char>) -> MoveCommand {
    let w = words(t);
    if w.len() == 0 || w[0] != move_word() {
        MoveCommand::NotAMove
    } else if w.len() < 2 {
        MoveCommand::MissingArgument
    } else {
        match decode_move(w[1]) {
            Some(m) => MoveCommand::Move(m),
            None => MoveCommand::Malformed,
        }
    }
}

/// Reads a message sent during a game.
pub fn read_move_command(text: &str) -> (r: MoveCommand)
    ensures
        r == move_command_of(text@),
        r matches MoveCommand::Move(m) ==> m.from.valid() && m.to.valid(),
{
    let w = split_words(text);
    proof {
        assert(views(w@).len() == w@.len());
    }
    if w.len() == 0 {
        return MoveCommand::NotAMove;
    }
    assert(views(w@)[0] == w@[0]@);
    if !same_text(w[0].as_str(), "!move") {
        return MoveCommand::NotAMove;
    }
    if w.len() < 2 {
        return MoveCommand::MissingArgument;
    }
    assert(views(w@)[1] == w@[1]@);
    match parse_move(w[1].as_str()) {
        Some(m) => MoveCommand::Move(m),
        None => MoveCommand::Malformed,
    }
}

} // verus!
