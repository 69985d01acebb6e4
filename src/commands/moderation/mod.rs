//! The moderation commands `ban`, `kick` and `unban`: they share how their
//! arguments are read, where they apply, and how their outcome is reported.

use vstd::prelude::*;

use super::{CommandKind, Error};
use crate::ids::{id_named_by, resolve_user_id};
use crate::text::{append, decimal, join, join_from, push_decimal, split_words, views, words};

pub mod ban;
pub mod kick;
pub mod unban;

verus! {

/// The remote action a moderation command takes.
#[derive(Clone, Copy, Debug, PartialEq, Eq, Structural)]
pub enum ModerationAction {
    Ban,
    Kick,
    Unban,
}

/// The arguments of a moderation command: the user as written, and the
/// reason, if any words follow the user.
#[derive(Clone, Debug)]
pub struct ModerationArgs {
    pub user_arg: String,
    pub reason: Option<String>,
}

/// What the platform says of the conversation a command came from.
#[derive(Clone, Debug)]
pub enum ChannelInfo {
    /// A text channel of the server `server`.
    TextChannel { server: String },
    /// A group conversation.
    Group { id: String },
    /// Any other conversation.
    Other,
}

/// Why the platform refused a moderation call.
#[derive(Clone, Debug)]
pub enum RemoteFailure {
    /// The call got an HTTP status other than success, with the response body.
    Http { status: u16, body: String },
    /// Any other failure, as its debug text.
    Other(String),
}

/// The reason as the success message gives it.
pub open spec fn reason_text(reason: Option<Seq<char>>) -> Seq<char> {
    match reason {
        Some(r) => "`"@ + r + "`"@,
        None => "no reason"@,
    }
}

impl ModerationAction {
    /// The verb, as in "Failed to ban".
    pub open spec fn spec_verb(self) -> Seq<char> {
        match self {
            ModerationAction::Ban => "ban"@,
            ModerationAction::Kick => "kick"@,
            ModerationAction::Unban => "unban"@,
        }
    }

    /// The past participle, as in "Successfully banned".
    pub open spec fn spec_done(self) -> Seq<char> {
        match self {
            ModerationAction::Ban => "banned"@,
            ModerationAction::Kick => "kicked"@,
            ModerationAction::Unban => "unbanned"@,
        }
    }

    /// The command that takes this action.
    pub open spec fn command(self) -> CommandKind {
        match self {
            ModerationAction::Ban => CommandKind::Ban,
            ModerationAction::Kick => CommandKind::Kick,
            ModerationAction::Unban => CommandKind::Unban,
        }
    }

    /// What a refusal with HTTP status `status` means to the user.
    pub open spec fn status_text(self, status: u16, body: Seq<char>) -> Seq<char> {
        if status == 404 && self == ModerationAction::Kick {
            "User not in server."@
        } else if status == 404 && self == ModerationAction::Unban {
            "User is already unbanned."@
        } else if status == 400 {
            "Invalid operation."@
        } else {
            "Status code "@ + decimal(status as nat) + ": `"@ + body + "`"@
        }
    }

    /// What a failure of the call means to the user.
    pub open spec fn failure_detail(self, f: RemoteFailure) -> Seq<char> {
        match f {
            RemoteFailure::Http { status, body } => self.status_text(status, body@),
            RemoteFailure::Other(e) => "`"@ + e@ + "`"@,
        }
    }

    fn verb(self) -> (r: &'static str)
        ensures
            r@ == self.spec_verb(),
    {
        match self {
            ModerationAction::Ban => "ban",
            ModerationAction::Kick => "kick",
            ModerationAction::Unban => "unban",
        }
    }

    fn done(self) -> (r: &'static str)
        ensures
            r@ == self.spec_done(),
    {
        match self {
            ModerationAction::Ban => "banned",
            ModerationAction::Kick => "kicked",
            ModerationAction::Unban => "unbanned",
        }
    }

    /// Reads `!<command> <user> [reason...]`. A message with no words asks for
    /// nothing; a missing user is a usage error; the words after the user,
    /// joined by single spaces, are the reason.
    pub fn parse_moderation_command(self, content: &str) -> (r: Result<Option<ModerationArgs>, Error>)
        ensures
            ({
                let w = words(content@);
                &&& w.len() == 0 ==> (r matches Ok(None))
                &&& w.len() == 1 ==> (r matches Err(Error::InvalidUsage { message, usage })
                    && message@ == "User argument needed"@ && usage@
                    == self.command().spec_usage())
                &&& w.len() >= 2 ==> (r matches Ok(Some(a)) && a.user_arg@ == w[1] && (if w.len()
                    == 2 {
                    a.reason is None
                } else {
                    a.reason matches Some(reason) && reason@ == join(w.skip(2), " "@)
                }))
            }),
    {
        let w = split_words(content);
        assert(views(w@).len() == w@.len());
        if w.len() == 0 {
            return Ok(None);
        }
        if w.len() < 2 {
            return Err(
                Error::InvalidUsage {
                    message: "User argument needed".to_owned(),
                    usage: "<user> [reason]".to_owned(),
                },
            );
        }
        assert(views(w@)[1] == w@[1]@);
        let reason = if w.len() > 2 {
            Some(join_from(&w, 2, " "))
        } else {
            None
        };
        Ok(Some(ModerationArgs { user_arg: w[1].clone(), reason }))
    }

    /// The id of the user the command names; a name that is neither an id
    /// nor a mention cannot be resolved.
    pub fn user_id(self, user_arg: &str) -> (r: Result<String, Error>)
        ensures
            match id_named_by(user_arg@) {
                Some(id) => r matches Ok(s) && s@ == id,
                None => r matches Err(Error::Generic(m)) && m@ == "Could not resolve user"@,
            },
    {
        match resolve_user_id(user_arg) {
            Some(id) => Ok(id),
            None => Err(Error::Generic("Could not resolve user".to_owned())),
        }
    }

    /// The server the command acts on: that of a text channel, or the group
    /// itself; anywhere else the command cannot act.
    pub fn server_of(self, channel: ChannelInfo) -> (r: Result<String, Error>)
        ensures
            match channel {
                ChannelInfo::TextChannel { server } => r == Ok::<String, Error>(server),
                ChannelInfo::Group { id } => r == Ok::<String, Error>(id),
                ChannelInfo::Other => r matches Err(Error::Generic(m)) && m@
                    == "Cannot ban outside of text channels and groups"@,
            },
    {
        match channel {
            ChannelInfo::TextChannel { server } => Ok(server),
            ChannelInfo::Group { id } => Ok(id),
            ChannelInfo::Other => Err(Error::Generic("Cannot ban outside of text channels and groups".to_owned())),
        }
    }

    /// The message sent when the call succeeded.
    pub fn success_text(self, args: &ModerationArgs) -> (r: String)
        ensures
            r@ == "Successfully "@ + self.spec_done() + " "@ + args.user_arg@ + " for "@
                + reason_text(
                match args.reason {
                    Some(x) => Some(x@),
                    None => None,
                },
            ) + "."@,
    {
        let mut r = "Successfully ".to_owned();
        append(&mut r, self.done());
        append(&mut r, " ");
        append(&mut r, args.user_arg.as_str());
        append(&mut r, " for ");
        match &args.reason {
            Some(x) => {
                append(&mut r, "`");
                append(&mut r, x.as_str());
                append(&mut r, "`");
            },
            None => append(&mut r, "no reason"),
        }
        append(&mut r, ".");
        r
    }

    /// The error reported when the call failed.
    pub fn failure(self, user_arg: &str, f: RemoteFailure) -> (r: Error)
        ensures
            r matches Error::Generic(m) && m@ == "Failed to "@ + self.spec_verb() + " "@ + user_arg@
                + ": "@ + self.failure_detail(f),
    {
        let mut m = "Failed to ".to_owned();
        append(&mut m, self.verb());
        append(&mut m, " ");
        append(&mut m, user_arg);
        append(&mut m, ": ");
        match f {
            RemoteFailure::Http { status, body } => {
                if status == 404 && self == ModerationAction::Kick {
                    append(&mut m, "User not in server.");
                } else if status == 404 && self == ModerationAction::Unban {
                    append(&mut m, "User is already unbanned.");
                } else if status == 400 {
                    append(&mut m, "Invalid operation.");
                } else {
                    append(&mut m, "Status code ");
                    push_decimal(&mut m, status as u64);
                    append(&mut m, ": `");
                    append(&mut m, body.as_str());
                    append(&mut m, "`");
                }
            },
            RemoteFailure::Other(e) => {
                append(&mut m, "`");
                append(&mut m, e.as_str());
                append(&mut m, "`");
            },
        }
        Error::Generic(m)
    }
}

} // verus!
