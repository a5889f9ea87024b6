//! `leave`: disconnect from the voice channel and discard the session.

use crate::commands::{check_control, control_verdict, VoiceScene};
use crate::embed::{Reply, ReplyView};
use crate::ids::GuildId;
use crate::notice::Notice;
use crate::options::{CommandInfo, CommandInfoView};
use crate::registry::SessionRegistry;
use vstd::prelude::*;

verus! {

/// The command that leaves the voice channel.
pub struct Leave;

impl Leave {
    /// What the command is called.
    pub fn name() -> (r: &'static str)
        ensures
            r@ == "leave"@,
    {
        "leave"
    }

    /// How the command is declared.
    pub open spec fn declared() -> CommandInfoView {
        CommandInfoView::plain("leave"@, "Leave voice channel"@)
    }

    /// The declaration of the command.
    pub fn info() -> (r: CommandInfo)
        ensures
            r@ == Self::declared(),
    {
        CommandInfo::plain(Leave::name(), "Leave voice channel")
    }

    /// Decides whether the bot is to disconnect: only for an invoker who sits
    /// in the bot's channel. `Ok` names the guild whose connection is to be
    /// torn down; `Err` holds the line to reply with, and then nothing is to
    /// be disconnected. No session is touched either way.
    pub fn execute(scene: &VoiceScene) -> (r: Result<GuildId, Notice>)
        ensures
            r == match control_verdict(*scene) {
                Ok(invoker) => Ok::<GuildId, Notice>(invoker.guild_id),
                Err(n) => Err(n),
            },
    {
        match check_control(scene) {
            Ok(invoker) => Ok(invoker.guild_id),
            Err(n) => Err(n),
        }
    }

    /// Closes the command once the transport has answered. Where it did
    /// disconnect, the session of `guild` is discarded with all that was
    /// queued; where it failed, the session stays as it is.
    pub fn finish(registry: &mut SessionRegistry, guild: GuildId, disconnected: bool) -> (r: Reply)
        ensures
            final(registry)@ == if disconnected {
                old(registry)@.remove(guild)
            } else {
                old(registry)@
            },
            r@ == ReplyView::text(
                if disconnected {
                    Notice::Left.text()
                } else {
                    Notice::LeaveFailed.text()
                },
            ),
    {
        if disconnected {
            let _ = registry.remove(guild);
            Notice::Left.reply()
        } else {
            Notice::LeaveFailed.reply()
        }
    }
}

} // verus!
