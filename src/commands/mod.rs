//! The chat commands: their errors, their registry, and how a message picks one.

use vstd::prelude::*;

use crate::cache::ResourceType;
use crate::text::{append, chars_of, starts_with, views};

pub mod play_chess;
pub mod help;
pub mod moderation;

pub use self::play_chess::Chess;
pub use self::help::Help;
pub use self::moderation::ban::Ban;
pub use self::moderation::kick::Kick;
pub use self::moderation::unban::Unban;

verus! {

/// Why a command failed, as reported back to the conversation it came from.
#[derive(Clone, Debug)]
pub enum Error {
    /// A failure with its own message.
    Generic(String),
    /// A command that has nothing to run yet.
    Unimplemented,
    /// A remote lookup of `resource` failed for the reason `inner`.
    Fetch { resource: ResourceType, inner: String },
    /// The arguments did not fit the command: what was wrong, and the usage.
    InvalidUsage { message: String, usage: String },
}

impl Error {
    /// The text the user reads.
    pub open spec fn spec_text(&self) -> Seq<char> {
        match self {
            Error::Generic(e) => e@,
            Error::Unimplemented => "This command is not implemented yet, ask the bot owner for more info."@,
            Error::Fetch { resource, inner } => "Failed to fetch "@ + resource.spec_name() + ": "@
                + inner@,
            Error::InvalidUsage { message, usage } => message@ + "\nUsage:\n>"@ + usage@,
        }
    }

    /// The text the user reads: the message, and for a usage error the usage too.
    pub fn to_string(&self) -> (r: String)
        ensures
            r@ == self.spec_text(),
    {
        match self {
            Error::Generic(e) => e.clone(),
            Error::Unimplemented => "This command is not implemented yet, ask the bot owner for more info.".to_owned(),
            Error::Fetch { resource, inner } => {
                let mut r = "Failed to fetch ".to_owned();
                append(&mut r, resource.name());
                append(&mut r, ": ");
                append(&mut r, inner.as_str());
                r
            },
            Error::InvalidUsage { message, usage } => {
                let mut r = message.clone();
                append(&mut r, "\nUsage:\n>");
                append(&mut r, usage.as_str());
                r
            },
        }
    }
}

/// The character that opens every command.
pub open spec fn prefix() -> Seq<char> {
    "!"@
}

/// One registered command: its name, its aliases and its usage.
#[derive(Clone, Debug)]
pub struct CommandEntry {
    pub name: String,
    pub aliases: Vec<String>,
    pub usage: String,
}

/// A message `t` calls the command with this name and these aliases: it begins
/// with the prefix and the name, or with the prefix and one of the aliases.
pub open spec fn calls(name: Seq<char>, aliases: Seq<Seq<char>>, t: Seq<char>) -> bool {
    (prefix() + name).is_prefix_of(t) || exists|i: int|
        0 <= i < aliases.len() && #[trigger] (prefix() + aliases[i]).is_prefix_of(t)
}

impl CommandEntry {
    /// The message `t` calls this command.
    pub open spec fn called_by(&self, t: Seq<char>) -> bool {
        calls(self.name@, views(self.aliases@), t)
    }

    /// Whether the message, as characters, calls this command.
    pub fn is_called_by(&self, t: &Vec<char>) -> (r: bool)
        ensures
            r == self.called_by(t@),
    {
        let mut key = "!".to_owned();
        append(&mut key, self.name.as_str());
        if starts_with(t, key.as_str()) {
            return true;
        }
        let mut i: usize = 0;
        while i < self.aliases.len()
            invariant
                i <= self.aliases@.len(),
                !(prefix() + self.name@).is_prefix_of(t@),
                forall|j: int|
                    0 <= j < i ==> !#[trigger] (prefix() + views(self.aliases@)[j]).is_prefix_of(
                        t@,
                    ),
            decreases self.aliases@.len() - i,
        {
            let mut key = "!".to_owned();
            append(&mut key, self.aliases[i].as_str());
            if starts_with(t, key.as_str()) {
                assert((prefix() + views(self.aliases@)[i as int]).is_prefix_of(t@));
                return true;
            }
            i = i + 1;
        }
        false
    }
}

/// The first of `entries`, in registration order, that the message `text`
/// calls; no later entry is tried.
pub fn select_command(entries: &Vec<CommandEntry>, text: &str) -> (r: Option<usize>)
    ensures
        match r {
            Some(i) => i < entries@.len() && entries@[i as int].called_by(text@) && forall|j: int|
                0 <= j < i ==> !#[trigger] entries@[j].called_by(text@),
            None => forall|j: int| 0 <= j < entries@.len() ==> !#[trigger] entries@[j].called_by(text@),
        },
{
    let t = chars_of(text);
    let mut i: usize = 0;
    while i < entries.len()
        invariant
            t@ == text@,
            i <= entries@.len(),
            forall|j: int| 0 <= j < i ==> !#[trigger] entries@[j].called_by(text@),
        decreases entries@.len() - i,
    {
        if entries[i].is_called_by(&t) {
            return Some(i);
        }
        i = i + 1;
    }
    None
}

/// The registered commands.
#[derive(Clone, Copy, Debug, PartialEq, Eq, Structural)]
pub enum CommandKind {
    Chess,
    Help,
    Ban,
    Kick,
    Unban,
}

/// The commands in registration order.
pub open spec fn command_order() -> Seq<CommandKind> {
    seq![CommandKind::Chess, CommandKind::Help, CommandKind::Ban, CommandKind::Kick, CommandKind::Unban]
}

impl CommandKind {
    pub open spec fn spec_name(self) -> Seq<char> {
        match self {
            CommandKind::Chess => "chess"@,
            CommandKind::Help => "help"@,
            CommandKind::Ban => "ban"@,
            CommandKind::Kick => "kick"@,
            CommandKind::Unban => "unban"@,
        }
    }

    pub open spec fn spec_aliases(self) -> Seq<Seq<char>> {
        match self {
            CommandKind::Chess => seq!["play-chess"@],
            CommandKind::Help => seq!["h"@],
            CommandKind::Ban => seq!["b"@],
            CommandKind::Kick => seq!["k"@],
            CommandKind::Unban => seq!["ub"@],
        }
    }

    pub open spec fn spec_usage(self) -> Seq<char> {
        match self {
            CommandKind::Chess => "[white|black|random] <opponent>"@,
            CommandKind::Help => "[command]"@,
            CommandKind::Ban => "<user> [reason]"@,
            CommandKind::Kick => "<user> [reason]"@,
            CommandKind::Unban => "<user> [reason]"@,
        }
    }

    /// `e` is this command's entry.
    pub open spec fn describes(self, e: CommandEntry) -> bool {
        e.name@ == self.spec_name() && views(e.aliases@) == self.spec_aliases() && e.usage@
            == self.spec_usage()
    }

    /// The command's name.
    pub fn get_name(self) -> (r: String)
        ensures
            r@ == self.spec_name(),
    {
        match self {
            CommandKind::Chess => Chess.get_name(),
            CommandKind::Help => Help.get_name(),
            CommandKind::Ban => Ban.get_name(),
            CommandKind::Kick => Kick.get_name(),
            CommandKind::Unban => Unban.get_name(),
        }
    }

    /// The command's aliases.
    pub fn get_aliases(self) -> (r: Vec<String>)
        ensures
            views(r@) == self.spec_aliases(),
    {
        match self {
            CommandKind::Chess => Chess.get_aliases(),
            CommandKind::Help => Help.get_aliases(),
            CommandKind::Ban => Ban.get_aliases(),
            CommandKind::Kick => Kick.get_aliases(),
            CommandKind::Unban => Unban.get_aliases(),
        }
    }

    /// The command's usage, without its name.
    pub fn get_usage(self) -> (r: String)
        ensures
            r@ == self.spec_usage(),
    {
        match self {
            CommandKind::Chess => Chess.get_usage(),
            CommandKind::Help => Help.get_usage(),
            CommandKind::Ban => Ban.get_usage(),
            CommandKind::Kick => Kick.get_usage(),
            CommandKind::Unban => Unban.get_usage(),
        }
    }

    /// The command's registry entry.
    pub fn entry(self) -> (r: CommandEntry)
        ensures
            self.describes(r),
    {
        CommandEntry { name: self.get_name(), aliases: self.get_aliases(), usage: self.get_usage() }
    }
}

/// The registered commands, in registration order.
pub fn command_kinds() -> (r: Vec<CommandKind>)
    ensures
        r@ == command_order(),
{
    let r = vec![CommandKind::Chess, CommandKind::Help, CommandKind::Ban, CommandKind::Kick, CommandKind::Unban];
    assert(r@ =~= command_order());
    r
}

/// The registry: one entry per command, in registration order.
pub fn registry() -> (r: Vec<CommandEntry>)
    ensures
        r@.len() == command_order().len(),
        forall|i: int| 0 <= i < r@.len() ==> #[trigger] command_order()[i].describes(r@[i]),
{
    let kinds = command_kinds();
    let mut r: Vec<CommandEntry> = Vec::new();
    let mut i: usize = 0;
    while i < kinds.len()
        invariant
            kinds@ == command_order(),
            i <= kinds@.len(),
            r@.len() == i,
            forall|j: int| 0 <= j < i ==> #[trigger] command_order()[j].describes(r@[j]),
        decreases kinds@.len() - i,
    {
        r.push(kinds[i].entry());
        i = i + 1;
    }
    r
}

/// The command a message calls: the first one, in registration order, whose
/// prefixed name or alias begins the message.
pub fn command_for(text: &str) -> (r: Option<CommandKind>)
    ensures
        match r {
            Some(k) => exists|i: int|
                0 <= i < command_order().len() && command_order()[i] == k && calls(
                    k.spec_name(),
                    k.spec_aliases(),
                    text@,
                ) && forall|j: int|
                    0 <= j < i ==> !calls(
                        #[trigger] command_order()[j].spec_name(),
                        command_order()[j].spec_aliases(),
                        text@,
                    ),
            None => forall|j: int|
                0 <= j < command_order().len() ==> !calls(
                    #[trigger] command_order()[j].spec_name(),
                    command_order()[j].spec_aliases(),
                    text@,
                ),
        },
{
    let entries = registry();
    let kinds = command_kinds();
    match select_command(&entries, text) {
        Some(i) => {
            assert(command_order()[i as int].describes(entries@[i as int]));
            assert forall|j: int| 0 <= j < i implies !calls(
                #[trigger] command_order()[j].spec_name(),
                command_order()[j].spec_aliases(),
                text@,
            ) by {
                assert(command_order()[j].describes(entries@[j]));
                assert(!entries@[j].called_by(text@));
            }
            Some(kinds[i])
        },
        None => {
            assert forall|j: int| 0 <= j < command_order().len() implies !calls(
                #[trigger] command_order()[j].spec_name(),
                command_order()[j].spec_aliases(),
                text@,
            ) by {
                assert(command_order()[j].describes(entries@[j]));
                assert(!entries@[j].called_by(text@));
            }
            None
        },
    }
}

/// A reply to send to a conversation, tagging one of its messages.
#[derive(Clone, Debug)]
pub struct OutboundReply {
    pub conversation: String,
    pub text: String,
    pub reply_to: String,
    pub mention: bool,
}

/// How a failed command is reported: one reply in its conversation, tagging
/// the message that called it, with the error's text.
pub fn error_reply(conversation: &str, message_id: &str, e: &Error) -> (r: OutboundReply)
    ensures
        r.conversation@ == conversation@,
        r.reply_to@ == message_id@,
        r.text@ == e.spec_text(),
        r.mention,
{
    OutboundReply {
        conversation: conversation.to_owned(),
        text: e.to_string(),
        reply_to: message_id.to_owned(),
        mention: true,
    }
}

} // verus!
