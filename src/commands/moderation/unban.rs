//! The `unban` command.

use vstd::prelude::*;

use super::ModerationAction;
use crate::commands::CommandKind;
use crate::text::views;

verus! {

/// The `unban` moderation command.
#[derive(Clone, Copy, Debug, Default)]
pub struct Unban;

impl Unban {
    pub fn get_name(&self) -> (r: String)
        ensures
            r@ == CommandKind::Unban.spec_name(),
    {
        "unban".to_owned()
    }

    pub fn get_usage(&self) -> (r: String)
        ensures
            r@ == CommandKind::Unban.spec_usage(),
    {
        "<user> [reason]".to_owned()
    }

    pub fn get_aliases(&self) -> (r: Vec<String>)
        ensures
            views(r@) == CommandKind::Unban.spec_aliases(),
    {
        let r = vec!["ub".to_owned()];
        assert(views(r@) =~= CommandKind::Unban.spec_aliases());
        r
    }

    /// The remote action this command takes.
    pub fn action(&self) -> (r: ModerationAction)
        ensures
            r == ModerationAction::Unban,
            r.command() == CommandKind::Unban,
    {
        ModerationAction::Unban
    }
}

} // verus!
