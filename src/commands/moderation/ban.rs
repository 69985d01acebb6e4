//! The `ban` command.

use vstd::prelude::*;

use super::ModerationAction;
use crate::commands::CommandKind;
use crate::text::views;

verus! {

/// The `ban` moderation command.
#[derive(Clone, Copy, Debug, Default)]
pub struct Ban;

impl Ban {
    pub fn get_name(&self) -> (r: String)
        ensures
            r@ == CommandKind::Ban.spec_name(),
    {
        "ban".to_owned()
    }

    pub fn get_usage(&self) -> (r: String)
        ensures
            r@ == CommandKind::Ban.spec_usage(),
    {
        "<user> [reason]".to_owned()
    }

    pub fn get_aliases(&self) -> (r: Vec<String>)
        ensures
            views(r@) == CommandKind::Ban.spec_aliases(),
    {
        let r = vec!["b".to_owned()];
        assert(views(r@) =~= CommandKind::Ban.spec_aliases());
        r
    }

    /// The remote action this command takes.
    pub fn action(&self) -> (r: ModerationAction)
        ensures
            r == ModerationAction::Ban,
            r.command() == CommandKind::Ban,
    {
        ModerationAction::Ban
    }
}

} // verus!
