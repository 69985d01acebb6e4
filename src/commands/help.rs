//! The `help` command: the list of commands, or the details of one.

use vstd::prelude::*;

use super::{command_kinds, command_order, CommandKind, Error};
use crate::text::{append, join, join_from, same_text, split_words, views, words};

verus! {

/// Lists the commands, or describes one of them.
#[derive(Clone, Copy, Debug, Default)]
pub struct Help;

/// What a `help` message asks for.
#[derive(Clone, Copy, Debug, PartialEq, Eq, Structural)]
pub enum HelpTopic {
    /// The introduction and the list of all commands.
    Overview,
    /// The details of one command.
    Command(CommandKind),
}

/// `w` is the name or one of the aliases of `k`.
pub open spec fn names(k: CommandKind, w: Seq<char>) -> bool {
    k.spec_name() == w || k.spec_aliases().contains(w)
}

/// The first command, in registration order, that `w` names.
pub open spec fn named_command(w: Seq<char>) -> Option<CommandKind> {
    if names(CommandKind::Chess, w) {
        Some(CommandKind::Chess)
    } else if names(CommandKind::Help, w) {
        Some(CommandKind::Help)
    } else if names(CommandKind::Ban, w) {
        Some(CommandKind::Ban)
    } else if names(CommandKind::Kick, w) {
        Some(CommandKind::Kick)
    } else if names(CommandKind::Unban, w) {
        Some(CommandKind::Unban)
    } else {
        None
    }
}

/// A name between backticks.
pub open spec fn quoted(s: Seq<char>) -> Seq<char> {
    "`"@ + s + "`"@
}

/// The overview: the introduction, then every command's name in registration order.
pub open spec fn overview_text(intro: Seq<char>) -> Seq<char> {
    intro + "\nCommand:\n"@ + join(command_order().map_values(|k: CommandKind| quoted(k.spec_name())), ", "@)
}

/// The details of one command, with its description when there is one.
pub open spec fn details_text(k: CommandKind, description: Option<Seq<char>>) -> Seq<char> {
    "# `"@ + k.spec_name() + "` Command Details\n\n"@ + "Usage:\n> !"@ + k.spec_name() + " "@
        + k.spec_usage() + "\n\n"@ + match description {
        Some(d) => "Description:\n"@ + d + "\n\n"@,
        None => Seq::empty(),
    } + if k.spec_aliases().len() == 0 {
        Seq::empty()
    } else {
        "Aliases: "@ + join(k.spec_aliases().map_values(|a: Seq<char>| quoted(a)), ", "@)
    }
}

/// `s` between backticks.
fn quote(s: &str) -> (r: String)
    ensures
        r@ == quoted(s@),
{
    let mut r = "`".to_owned();
    append(&mut r, s);
    append(&mut r, "`");
    r
}

/// Whether `w` is the name or an alias of `k`.
fn is_named(k: CommandKind, w: &str) -> (r: bool)
    ensures
        r == names(k, w@),
{
    let name = k.get_name();
    if same_text(name.as_str(), w) {
        return true;
    }
    let aliases = k.get_aliases();
    let mut i: usize = 0;
    while i < aliases.len()
        invariant
            views(aliases@) == k.spec_aliases(),
            i <= aliases@.len(),
            forall|j: int| 0 <= j < i ==> k.spec_aliases()[j] != w@,
        decreases aliases@.len() - i,
    {
        if same_text(aliases[i].as_str(), w) {
            assert(k.spec_aliases()[i as int] == w@);
            return true;
        }
        i = i + 1;
    }
    false
}

/// The joined, quoted items of `v`.
fn quoted_list(v: &Vec<String>) -> (r: String)
    ensures
        r@ == join(views(v@).map_values(|a: Seq<char>| quoted(a)), ", "@),
{
    let mut q: Vec<String> = Vec::new();
    let mut i: usize = 0;
    while i < v.len()
        invariant
            i <= v@.len(),
            views(q@) == views(v@).take(i as int).map_values(|a: Seq<char>| quoted(a)),
        decreases v@.len() - i,
    {
        let ghost prev = views(q@);
        let x = quote(v[i].as_str());
        q.push(x);
        assert(views(q@) =~= prev.push(x@));
        i = i + 1;
        assert(views(v@).take(i as int).map_values(|a: Seq<char>| quoted(a)) =~= views(v@).take(
            i - 1,
        ).map_values(|a: Seq<char>| quoted(a)).push(quoted(views(v@)[i - 1])));
    }
    assert(views(v@).take(v@.len() as int) =~= views(v@));
    assert(views(q@).skip(0) =~= views(q@));
    join_from(&q, 0, ", ")
}

impl Help {
    pub fn get_name(&self) -> (r: String)
        ensures
            r@ == CommandKind::Help.spec_name(),
    {
        "help".to_owned()
    }

    pub fn get_aliases(&self) -> (r: Vec<String>)
        ensures
            views(r@) == CommandKind::Help.spec_aliases(),
    {
        let r = vec!["h".to_owned()];
        assert(views(r@) =~= CommandKind::Help.spec_aliases());
        r
    }

    pub fn get_usage(&self) -> (r: String)
        ensures
            r@ == CommandKind::Help.spec_usage(),
    {
        "[command]".to_owned()
    }

    /// Reads `!help [command]`: the overview without an argument, the details
    /// of the command named by its name or an alias, and an error for a name
    /// that no command has.
    pub fn topic(&self, content: &str) -> (r: Result<Option<HelpTopic>, Error>)
        ensures
            ({
                let w = words(content@);
                &&& w.len() == 0 ==> r == Ok::<Option<HelpTopic>, Error>(None)
                &&& w.len() == 1 ==> r == Ok::<Option<HelpTopic>, Error>(Some(HelpTopic::Overview))
                &&& w.len() >= 2 ==> match named_command(w[1]) {
                    Some(k) => r == Ok::<Option<HelpTopic>, Error>(Some(HelpTopic::Command(k))),
                    None => r matches Err(Error::Generic(m)) && m@ == "Command "@ + w[1]
                        + " does not exist. Execute !help for a list of commands."@,
                }
            }),
    {
        let w = split_words(content);
        assert(views(w@).len() == w@.len());
        if w.len() == 0 {
            return Ok(None);
        }
        if w.len() == 1 {
            return Ok(Some(HelpTopic::Overview));
        }
        assert(views(w@)[1] == w@[1]@);
        let name = w[1].as_str();
        if is_named(CommandKind::Chess, name) {
            Ok(Some(HelpTopic::Command(CommandKind::Chess)))
        } else if is_named(CommandKind::Help, name) {
            Ok(Some(HelpTopic::Command(CommandKind::Help)))
        } else if is_named(CommandKind::Ban, name) {
            Ok(Some(HelpTopic::Command(CommandKind::Ban)))
        } else if is_named(CommandKind::Kick, name) {
            Ok(Some(HelpTopic::Command(CommandKind::Kick)))
        } else if is_named(CommandKind::Unban, name) {
            Ok(Some(HelpTopic::Command(CommandKind::Unban)))
        } else {
            let mut m = "Command ".to_owned();
            append(&mut m, name);
            append(&mut m, " does not exist. Execute !help for a list of commands.");
            Err(Error::Generic(m))
        }
    }

    /// The overview: `intro`, then the names of all commands.
    pub fn overview(&self, intro: &str) -> (r: String)
        ensures
            r@ == overview_text(intro@),
    {
        let kinds = command_kinds();
        let mut names: Vec<String> = Vec::new();
        let mut i: usize = 0;
        while i < kinds.len()
            invariant
                kinds@ == command_order(),
                i <= kinds@.len(),
                views(names@) == command_order().take(i as int).map_values(
                    |k: CommandKind| k.spec_name(),
                ),
            decreases kinds@.len() - i,
        {
            let ghost prev = views(names@);
            let x = kinds[i].get_name();
            names.push(x);
            assert(views(names@) =~= prev.push(x@));
            i = i + 1;
            assert(command_order().take(i as int).map_values(|k: CommandKind| k.spec_name())
                =~= command_order().take(i - 1).map_values(|k: CommandKind| k.spec_name()).push(
                command_order()[i - 1].spec_name(),
            ));
        }
        assert(command_order().take(5) =~= command_order());
        let list = quoted_list(&names);
        assert(views(names@).map_values(|a: Seq<char>| quoted(a)) =~= command_order().map_values(
            |k: CommandKind| quoted(k.spec_name()),
        ));
        let mut r = intro.to_owned();
        append(&mut r, "\nCommand:\n");
        append(&mut r, list.as_str());
        r
    }

    /// The details of the command `k`, with its description when there is one.
    pub fn details(&self, k: CommandKind, description: Option<String>) -> (r: String)
        ensures
            r@ == details_text(
                k,
                match description {
                    Some(d) => Some(d@),
                    None => None,
                },
            ),
    {
        let name = k.get_name();
        let mut r = "# `".to_owned();
        append(&mut r, name.as_str());
        append(&mut r, "` Command Details\n\n");
        append(&mut r, "Usage:\n> !");
        append(&mut r, name.as_str());
        append(&mut r, " ");
        append(&mut r, k.get_usage().as_str());
        append(&mut r, "\n\n");
        match description {
            Some(d) => {
                append(&mut r, "Description:\n");
                append(&mut r, d.as_str());
                append(&mut r, "\n\n");
            },
            None => {},
        }
        let aliases = k.get_aliases();
        if aliases.len() > 0 {
            append(&mut r, "Aliases: ");
            append(&mut r, quoted_list(&aliases).as_str());
        }
        r
    }
}

} // verus!
