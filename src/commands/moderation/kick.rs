//! The `kick` command.

use vstd::prelude::*;

use super::ModerationAction;
use crate::commands::CommandKind;
use crate::text::views;

verus! {

/// The `kick` moderation command.
#[derive(Clone, Copy, Debug, Default)]
pub struct Kick;

impl Kick {
    pub fn get_name(&self) -> (r: String)
        ensures
            r@ == CommandKind::Kick.spec_name(),
    {
        "kick".to_owned()
    }

    pub fn get_usage(&self) -> (r: String)
        ensures
            r@ == CommandKind::Kick.spec_usage(),
    {
        "<user> [reason]".to_owned()
    }

    pub fn get_aliases(&self) -> (r: Vec<String>)
        ensures
            views(r@) == CommandKind::Kick.spec_aliases(),
    {
        let r = vec!["k".to_owned()];
        assert(views(r@) =~= CommandKind::Kick.spec_aliases());
        r
    }

    /// The remote action this command takes.
    pub fn action(&self) -> (r: ModerationAction)
        ensures
            r == ModerationAction::Kick,
            r.command() == CommandKind::Kick,
    {
        ModerationAction::Kick
    }
}

} // verus!
