//! The `chess` command: reads its arguments and opens a game.

use vstd::prelude::*;

use super::{CommandKind, Error};
use crate::ids::{id_named_by, resolve_user_id};
use crate::session::{GameSession, Side};
use crate::text::{append, same_text, split_words, views, words};

verus! {

/// Relies on `rand::random::<bool>`: a fair coin.
#[verifier::external_body]
fn coin_flip() -> bool {
    rand::random::<bool>()
}

/// Starts a game of chess against another user.
#[derive(Clone, Copy, Debug, Default)]
pub struct Chess;

/// The colour asked for: one of the two, or a coin flip.
#[derive(Clone, Copy, Debug, PartialEq, Eq, Structural)]
pub enum ColorChoice {
    White,
    Black,
    Random,
}

/// The colour a word asks for: `white`, `black` or `random`.
pub open spec fn color_choice_of(s: Seq<char>) -> Option<ColorChoice> {
    if s == "white"@ {
        Some(ColorChoice::White)
    } else if s == "black"@ {
        Some(ColorChoice::Black)
    } else if s == "random"@ {
        Some(ColorChoice::Random)
    } else {
        None
    }
}

/// Reads a colour word.
pub fn color_choice(s: &str) -> (r: Option<ColorChoice>)
    ensures
        r == color_choice_of(s@),
{
    if same_text(s, "white") {
        Some(ColorChoice::White)
    } else if same_text(s, "black") {
        Some(ColorChoice::Black)
    } else if same_text(s, "random") {
        Some(ColorChoice::Random)
    } else {
        None
    }
}

impl ColorChoice {
    /// The colour, where a coin flip that came up `true` gives white.
    pub fn with_coin(self, coin: bool) -> (r: Side)
        ensures
            self == ColorChoice::White ==> r == Side::White,
            self == ColorChoice::Black ==> r == Side::Black,
            self == ColorChoice::Random ==> r == (if coin {
                Side::White
            } else {
                Side::Black
            }),
    {
        match self {
            ColorChoice::White => Side::White,
            ColorChoice::Black => Side::Black,
            ColorChoice::Random => if coin {
                Side::White
            } else {
                Side::Black
            },
        }
    }

    /// The colour, flipping a fair coin for `Random`.
    pub fn pick(self) -> (r: Side)
        ensures
            self == ColorChoice::White ==> r == Side::White,
            self == ColorChoice::Black ==> r == Side::Black,
    {
        let coin = if self == ColorChoice::Random {
            coin_flip()
        } else {
            false
        };
        self.with_coin(coin)
    }
}

/// The colour a word gives the player who starts the game: `white`, `black`,
/// or either for `random`; `None` for any other word.
pub fn get_color(color: &str) -> (r: Option<Side>)
    ensures
        color_choice_of(color@) is None <==> r is None,
        color_choice_of(color@) == Some(ColorChoice::White) ==> r == Some(Side::White),
        color_choice_of(color@) == Some(ColorChoice::Black) ==> r == Some(Side::Black),
{
    match color_choice(color) {
        Some(c) => Some(c.pick()),
        None => None,
    }
}

/// The arguments of a `chess` command.
#[derive(Clone, Debug)]
pub struct ChessArgs {
    pub color: ColorChoice,
    /// How the opponent was written: an id or a mention.
    pub opponent: String,
}

/// `r` is the usage error with this message.
pub open spec fn is_usage_error(r: Error, message: Seq<char>, usage: Seq<char>) -> bool {
    r matches Error::InvalidUsage { message: m, usage: u } && m@ == message && u@ == usage
}

impl Chess {
    pub fn get_name(&self) -> (r: String)
        ensures
            r@ == CommandKind::Chess.spec_name(),
    {
        "chess".to_owned()
    }

    pub fn get_aliases(&self) -> (r: Vec<String>)
        ensures
            views(r@) == CommandKind::Chess.spec_aliases(),
    {
        let r = vec!["play-chess".to_owned()];
        assert(views(r@) =~= CommandKind::Chess.spec_aliases());
        r
    }

    pub fn get_usage(&self) -> (r: String)
        ensures
            r@ == CommandKind::Chess.spec_usage(),
    {
        "[white|black|random] <opponent>".to_owned()
    }

    /// Reads `!chess <color> <opponent>`. A message with no words asks for
    /// nothing; a missing or unknown colour, or a missing opponent, is a usage
    /// error.
    pub fn parse_args(&self, content: &str) -> (r: Result<Option<ChessArgs>, Error>)
        ensures
            ({
                let w = words(content@);
                let usage = CommandKind::Chess.spec_usage();
                &&& w.len() == 0 ==> r == Ok::<Option<ChessArgs>, Error>(None)
                &&& w.len() == 1 ==> (r matches Err(e) && is_usage_error(
                    e,
                    "Color argument needed."@,
                    usage,
                ))
                &&& w.len() >= 2 && color_choice_of(w[1]) is None ==> (r matches Err(e)
                    && is_usage_error(e, "Unexpected color \""@ + w[1] + "\"."@, usage))
                &&& w.len() == 2 && color_choice_of(w[1]) is Some ==> (r matches Err(e)
                    && is_usage_error(e, "Opponent argument needed"@, usage))
                &&& w.len() >= 3 && color_choice_of(w[1]) is Some ==> (r matches Ok(Some(a))
                    && a.color == color_choice_of(w[1])->0 && a.opponent@ == w[2])
            }),
    {
        let w = split_words(content);
        assert(views(w@).len() == w@.len());
        if w.len() == 0 {
            return Ok(None);
        }
        if w.len() < 2 {
            return Err(
                Error::InvalidUsage {
                    message: "Color argument needed.".to_owned(),
                    usage: self.get_usage(),
                },
            );
        }
        assert(views(w@)[1] == w@[1]@);
        let color = match color_choice(w[1].as_str()) {
            Some(c) => c,
            None => {
                let mut message = "Unexpected color \"".to_owned();
                append(&mut message, w[1].as_str());
                append(&mut message, "\".");
                return Err(Error::InvalidUsage { message, usage: self.get_usage() });
            },
        };
        if w.len() < 3 {
            return Err(
                Error::InvalidUsage {
                    message: "Opponent argument needed".to_owned(),
                    usage: self.get_usage(),
                },
            );
        }
        assert(views(w@)[2] == w@[2]@);
        Ok(Some(ChessArgs { color, opponent: w[2].clone() }))
    }

    /// The id of the opponent named by the argument; a name that is neither an
    /// id nor a mention cannot be resolved.
    pub fn opponent_id(&self, opponent: &str) -> (r: Result<String, Error>)
        ensures
            match id_named_by(opponent@) {
                Some(id) => r matches Ok(s) && s@ == id,
                None => r matches Err(Error::Generic(m)) && m@ == "Failed to find user."@,
            },
    {
        match resolve_user_id(opponent) {
            Some(id) => Ok(id),
            None => Err(Error::Generic("Failed to find user.".to_owned())),
        }
    }

    /// Opens the game once both players are known: the player who sent the
    /// command gets `side`, the opponent the other colour, and white moves first.
    pub fn start_session(&self, conversation: String, initiator: String, opponent: String, side: Side) -> (r: GameSession)
        ensures
            r.conversation == conversation,
            r.initiator == initiator,
            r.opponent == opponent,
            r.initiator_side == side,
            r.initiator_to_move == (side == Side::White),
    {
        GameSession::new(conversation, initiator, opponent, side)
    }
}

} // verus!
