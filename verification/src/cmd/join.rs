//! `join`: connect to the invoker's voice channel.

use crate::embed::{text_response, Reply, ReplyView};
use crate::notice::Notice;
use crate::options::{CommandInfo, CommandInfoView};
use crate::playback::{opt_text, VOIPData};
use crate::registry::{after_get_or_create, reusable, SessionRegistry};
use vstd::prelude::*;

verus! {

/// The command that joins the invoker's voice channel.
pub struct Join;

/// The reply to a join, given the name of the channel if it could be had.
pub open spec fn join_reply(channel_name: Option<Seq<char>>) -> ReplyView {
    match channel_name {
        Some(name) => ReplyView::text("Joined channel "@ + name),
        None => ReplyView::text(Notice::JoinFailed.text()),
    }
}

impl Join {
    /// What the command is called.
    pub fn name() -> (r: &'static str)
        ensures
            r@ == "join"@,
    {
        "join"
    }

    /// How the command is declared.
    pub open spec fn declared() -> CommandInfoView {
        CommandInfoView::plain("join"@, "Join current voice channel"@)
    }

    /// The declaration of the command.
    pub fn info() -> (r: CommandInfo)
        ensures
            r@ == Self::declared(),
    {
        CommandInfo::plain(Join::name(), "Join current voice channel")
    }

    /// Records what the transport answered when it was asked to join the
    /// invoker's channel. Where it `joined`, the guild has a session in that
    /// channel afterwards: the one it had, moved there with its queue if it
    /// was elsewhere, or an empty one. Where it did not, nothing changes and
    /// the join has failed.
    pub fn execute(registry: &mut SessionRegistry, invoker: VOIPData, joined: bool) -> (r: Result<
        (),
        Notice,
    >)
        ensures
            final(registry)@ == after_get_or_create(
                old(registry)@,
                invoker.guild_id,
                invoker.channel_id,
                joined,
            ),
            r == if joined {
                Ok::<(), Notice>(())
            } else {
                Err(Notice::JoinFailed)
            },
            joined ==> reusable(final(registry)@, invoker.guild_id, invoker.channel_id),
    {
        if !joined {
            return Err(Notice::JoinFailed);
        }
        let _ = registry.get_or_create(invoker.guild_id, invoker.channel_id, true);
        Ok(())
    }

    /// The reply to a join that succeeded: it names the channel, and fails
    /// after all where the name of the channel cannot be had.
    pub fn reply(channel_name: &Option<String>) -> (r: Reply)
        ensures
            r@ == join_reply(opt_text(*channel_name)),
    {
        match channel_name {
            Some(name) => {
                let mut line = String::from_str("Joined channel ");
                line.append(name.as_str());
                text_response(line.as_str())
            },
            None => Notice::JoinFailed.reply(),
        }
    }
}

} // verus!
