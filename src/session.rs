//! A game of chess between two chat users, fed by the messages of one
//! conversation and gated by whose turn it is.

use vstd::prelude::*;

use crate::moves::{move_command_of, read_move_command, Coord, MoveCommand, MoveSpec, Promotion};
use crate::text::same_text;

verus! {

#[verifier::external_type_specification]
#[verifier::external_body]
pub struct ExChessBoard(chess::Board);

/// The board of one game, kept by the rules engine (`chess::Game`). It
/// always starts from the standard position, and only `play` changes it.
#[verifier::external_body]
pub struct GameBoard {
    game: chess::Game,
}

/// The moves the engine has played on `b` since the standard starting
/// position, in order (the `MakeMove` actions of `chess::Game::actions`).
pub uninterp spec fn played_of(b: GameBoard) -> Seq<MoveSpec>;

/// The engine's verdict on `m` after the standard starting position and the
/// moves `played`: whether the move is legal there and the game not over.
pub uninterp spec fn engine_accepts(played: Seq<MoveSpec>, m: MoveSpec) -> bool;

impl GameBoard {
    /// Relies on `chess::Game::new`: a game in the standard starting
    /// position, with no move played.
    #[verifier::external_body]
    pub fn new() -> (r: GameBoard)
        ensures
            played_of(r) == Seq::<MoveSpec>::empty(),
    {
        GameBoard { game: chess::Game::new() }
    }

    /// Relies on `chess::Game::make_move`, after building the engine's move
    /// with `chess::Square::make_square`, `chess::Rank::from_index`,
    /// `chess::File::from_index` and `chess::ChessMove::new`: it returns whether
    /// the engine accepts the move, appends it to the moves played when it
    /// does, and leaves the game untouched when it does not.
    #[verifier::external_body]
    pub fn play(&mut self, m: MoveSpec) -> (r: bool)
        requires
            m.from.valid(),
            m.to.valid(),
        ensures
            r == engine_accepts(played_of(*old(self)), m),
            played_of(*final(self)) == if r {
                played_of(*old(self)).push(m)
            } else {
                played_of(*old(self))
            },
            !r ==> *final(self) == *old(self),
    {
        let square = |c: Coord|
            chess::Square::make_square(chess::Rank::from_index(c.rank as usize), chess::File::from_index(c.file as usize));
        let piece = match m.promotion {
            Some(Promotion::Rook) => Some(chess::Piece::Rook),
            Some(Promotion::Knight) => Some(chess::Piece::Knight),
            Some(Promotion::Bishop) => Some(chess::Piece::Bishop),
            Some(Promotion::Queen) => Some(chess::Piece::Queen),
            None => None,
        };
        self.game.make_move(chess::ChessMove::new(square(m.from), square(m.to), piece))
    }

    /// Relies on `chess::Game::current_position`: the position on the board,
    /// for display.
    #[verifier::external_body]
    pub fn current_position(&self) -> chess::Board {
        self.game.current_position()
    }
}

/// The colour a player has.
#[derive(Clone, Copy, Debug, PartialEq, Eq, Structural)]
pub enum Side {
    White,
    Black,
}

impl Side {
    /// The other colour.
    pub fn opposite(self) -> (r: Side)
        ensures
            r != self,
    {
        match self {
            Side::White => Side::Black,
            Side::Black => Side::White,
        }
    }
}

/// What became of one message handed to a game.
#[derive(Clone, Copy, Debug, PartialEq, Eq, Structural)]
pub enum SessionOutcome {
    /// Not for this game: another author, another conversation, or not a move.
    Ignored,
    /// `!move` came without a move: the sender gets the usage hint.
    UsageHint,
    /// The move word was off the move grammar: dropped without a reply.
    Malformed,
    /// The engine refused the move; the turn stays.
    Rejected(MoveSpec),
    /// The engine played the move; the turn passes.
    Accepted(MoveSpec),
}

/// The whose-turn flag after one outcome.
pub open spec fn next_turn(initiator_to_move: bool, o: SessionOutcome) -> bool {
    if o is Accepted {
        !initiator_to_move
    } else {
        initiator_to_move
    }
}

/// One game: who plays it, where, with which colours, the board, and whose turn it is.
pub struct GameSession {
    /// The conversation the game was started in.
    pub conversation: String,
    /// The player who started the game.
    pub initiator: String,
    /// The player challenged.
    pub opponent: String,
    /// The initiator's colour; the opponent has the other.
    pub initiator_side: Side,
    /// The board, as the rules engine keeps it.
    pub board: GameBoard,
    /// Whether the initiator is the player to move.
    pub initiator_to_move: bool,
}

impl GameSession {
    /// The id of the player whose turn it is.
    pub open spec fn turn_holder(&self) -> Seq<char> {
        if self.initiator_to_move {
            self.initiator@
        } else {
            self.opponent@
        }
    }

    /// A message by `author` in `conversation` is one the game listens to.
    pub open spec fn addresses(&self, author: Seq<char>, conversation: Seq<char>) -> bool {
        author == self.turn_holder() && conversation == self.conversation@
    }

    /// A new game in the starting position; white moves first.
    pub fn new(conversation: String, initiator: String, opponent: String, initiator_side: Side) -> (r: GameSession)
        ensures
            r.conversation == conversation,
            r.initiator == initiator,
            r.opponent == opponent,
            r.initiator_side == initiator_side,
            r.initiator_to_move == (initiator_side == Side::White),
            played_of(r.board) == Seq::<MoveSpec>::empty(),
    {
        GameSession {
            conversation,
            initiator,
            opponent,
            initiator_side,
            board: GameBoard::new(),
            initiator_to_move: initiator_side == Side::White,
        }
    }

    /// The id of the player whose turn it is.
    pub fn current_player(&self) -> (r: &String)
        ensures
            r@ == self.turn_holder(),
    {
        if self.initiator_to_move {
            &self.initiator
        } else {
            &self.opponent
        }
    }

    /// The colour of the player whose turn it is.
    pub fn side_to_move(&self) -> (r: Side)
        ensures
            r == (if self.initiator_to_move {
                self.initiator_side
            } else {
                if self.initiator_side == Side::White {
                    Side::Black
                } else {
                    Side::White
                }
            }),
    {
        if self.initiator_to_move {
            self.initiator_side
        } else {
            self.initiator_side.opposite()
        }
    }

    /// Hands one message of the stream to the game. Only a move by the player
    /// to move, in the game's conversation, reaches the engine; when the
    /// engine plays it, the turn passes to the other player.
    pub fn handle_message(&mut self, author: &str, conversation: &str, text: &str) -> (r: SessionOutcome)
        ensures
            !old(self).addresses(author@, conversation@) ==> r == SessionOutcome::Ignored,
            old(self).addresses(author@, conversation@) ==> match move_command_of(text@) {
                MoveCommand::NotAMove => r == SessionOutcome::Ignored,
                MoveCommand::MissingArgument => r == SessionOutcome::UsageHint,
                MoveCommand::Malformed => r == SessionOutcome::Malformed,
                MoveCommand::Move(m) => r == if engine_accepts(played_of(old(self).board), m) {
                    SessionOutcome::Accepted(m)
                } else {
                    SessionOutcome::Rejected(m)
                },
            },
            played_of(final(self).board) == if r is Accepted {
                played_of(old(self).board).push(r->Accepted_0)
            } else {
                played_of(old(self).board)
            },
            !(r is Accepted) ==> *final(self) == *old(self),
            r is Accepted ==> final(self).initiator_to_move == !old(self).initiator_to_move,
            final(self).initiator_to_move == next_turn(old(self).initiator_to_move, r),
            final(self).conversation == old(self).conversation,
            final(self).initiator == old(self).initiator,
            final(self).opponent == old(self).opponent,
            final(self).initiator_side == old(self).initiator_side,
    {
        let holder = if self.initiator_to_move {
            self.initiator.as_str()
        } else {
            self.opponent.as_str()
        };
        if !same_text(author, holder) || !same_text(conversation, self.conversation.as_str()) {
            return SessionOutcome::Ignored;
        }
        match read_move_command(text) {
            MoveCommand::NotAMove => SessionOutcome::Ignored,
            MoveCommand::MissingArgument => SessionOutcome::UsageHint,
            MoveCommand::Malformed => SessionOutcome::Malformed,
            MoveCommand::Move(m) => {
                if self.board.play(m) {
                    self.initiator_to_move = !self.initiator_to_move;
                    SessionOutcome::Accepted(m)
                } else {
                    SessionOutcome::Rejected(m)
                }
            },
        }
    }
}

/// The reply sent when `!move` comes without a move.
pub fn move_usage_hint() -> (r: String)
    ensures
        r@ == "Expected UCI move argument. Usage:\n> !move [a-h][1-8][a-h][1-8](r|n|b|q)?"@,
{
    "Expected UCI move argument. Usage:\n> !move [a-h][1-8][a-h][1-8](r|n|b|q)?".to_owned()
}

/// The whose-turn flag after a run of outcomes, one message after another.
pub open spec fn turn_after(initiator_to_move: bool, outcomes: Seq<SessionOutcome>) -> bool
    decreases outcomes.len(),
{
    if outcomes.len() == 0 {
        initiator_to_move
    } else {
        next_turn(turn_after(initiator_to_move, outcomes.drop_last()), outcomes.last())
    }
}

/// How many of the outcomes are accepted moves.
pub open spec fn accepted_count(outcomes: Seq<SessionOutcome>) -> nat
    decreases outcomes.len(),
{
    if outcomes.len() == 0 {
        0
    } else {
        accepted_count(outcomes.drop_last()) + if outcomes.last() is Accepted {
            1nat
        } else {
            0nat
        }
    }
}

/// Each accepted move hands the turn over, and nothing else does: after any
/// run of messages the turn is back with the player who had it at the start
/// exactly when an even number of moves were accepted.
pub proof fn lemma_turn_parity(initiator_to_move: bool, outcomes: Seq<SessionOutcome>)
    ensures
        (turn_after(initiator_to_move, outcomes) == initiator_to_move) <==> accepted_count(
            outcomes,
        ) % 2 == 0,
    decreases outcomes.len(),
{
    if outcomes.len() > 0 {
        lemma_turn_parity(initiator_to_move, outcomes.drop_last());
    }
}

} // verus!
