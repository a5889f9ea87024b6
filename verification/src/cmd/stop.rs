//! `stop`: clear the queue and stay connected.

use crate::commands::{check_control, controlled_guild, VoiceScene};
use crate::embed::{Reply, ReplyView};
use crate::playback::VoiceStateError;
use crate::registry::SessionRegistry;
use crate::notice::Notice;
use crate::options::{CommandInfo, CommandInfoView};
use crate::session::PlaybackSession;
use vstd::prelude::*;

verus! {

/// The command that stops playback.
pub struct Stop;

impl Stop {
    /// What the command is called.
    pub fn name() -> (r: &'static str)
        ensures
            r@ == "stop"@,
    {
        "stop"
    }

    /// How the command is declared.
    pub open spec fn declared() -> CommandInfoView {
        CommandInfoView::plain("stop"@, "Stop music and clear the queue"@)
    }

    /// The declaration of the command.
    pub fn info() -> (r: CommandInfo)
        ensures
            r@ == Self::declared(),
    {
        CommandInfo::plain(Stop::name(), "Stop music and clear the queue")
    }

    /// Runs the command for the invoker described by `scene`. Only an
    /// invoker who sits in the bot's channel gets the queue cleared; anyone
    /// else gets the reason, and no session changes. `Ok` names the guild
    /// whose playback the transport is to stop.
    pub fn run(scene: &VoiceScene, registry: &mut SessionRegistry) -> (r: (
        Reply,
        Option<crate::ids::GuildId>,
    ))
        ensures
            match controlled_guild(*scene, old(registry)@) {
                Ok(guild) => {
                    &&& final(registry)@ == old(registry)@.insert(
                        guild,
                        old(registry)@[guild].stop(),
                    )
                    &&& r.0@ == ReplyView::text(Notice::Stopped.text())
                    &&& r.1 == Some(guild)
                },
                Err(n) => {
                    &&& final(registry)@ == old(registry)@
                    &&& r.0@ == ReplyView::text(n.text())
                    &&& r.1 is None
                },
            },
    {
        let invoker = match check_control(scene) {
            Ok(v) => v,
            Err(n) => {
                return (n.reply(), None);
            },
        };
        match registry.remove(invoker.guild_id) {
            Some(mut session) => {
                let reply = Stop::execute(&mut session);
                let _ = registry.insert(session);
                proof {
                    assert(registry@ =~= old(registry)@.insert(
                        invoker.guild_id,
                        old(registry)@[invoker.guild_id].stop(),
                    ));
                }
                (reply, Some(invoker.guild_id))
            },
            None => {
                proof {
                    assert(registry@ =~= old(registry)@);
                }
                (Notice::Voice(VoiceStateError::NotConnected).reply(), None)
            },
        }
    }

    /// Clears the queue of `session`, the track that plays included, and
    /// confirms it. The session stays connected.
    pub fn execute(session: &mut PlaybackSession) -> (r: Reply)
        ensures
            final(session)@ == old(session)@.stop(),
            r@ == ReplyView::text(Notice::Stopped.text()),
    {
        session.stop();
        Notice::Stopped.reply()
    }
}

} // verus!
