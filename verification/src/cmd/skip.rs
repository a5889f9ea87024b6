//! `skip`: drop the track that plays and go on with the next.

use crate::commands::{check_control, controlled_guild, VoiceScene};
use crate::embed::{field, Embed, EmbedView, Reply, ReplyView};
use crate::registry::SessionRegistry;
use crate::ids::TrackId;
use crate::notice::Notice;
use crate::options::{CommandInfo, CommandInfoView};
use crate::playback::{duration_format, QueueEntry, QueueEntryView};
use crate::session::{PlaybackSession, SessionView};
use vstd::prelude::*;

verus! {

/// The command that skips.
pub struct Skip;

/// The card that confirms the skip of `entry`.
pub open spec fn skipped_card(entry: QueueEntryView) -> ReplyView {
    ReplyView {
        embed: EmbedView {
            title: Some("Skipped"@),
            fields: seq![
                field("Track"@, entry.metadata.title, true),
                field(
                    "Length"@,
                    duration_format(entry.metadata.duration@, entry.live).text(),
                    true,
                ),
            ],
            ..EmbedView::blank()
        },
        button: None,
    }
}

/// The reply to a skip in session `s`.
pub open spec fn skip_reply(s: SessionView) -> ReplyView {
    if s.queue.len() == 0 {
        ReplyView::text(Notice::NothingToSkip.text())
    } else {
        skipped_card(s.queue[0])
    }
}

/// What `skip` did.
#[derive(Debug, PartialEq, Eq)]
pub struct SkipOutcome {
    /// The reply to show.
    pub reply: Reply,
    /// The track that the transport is to stop, if one was skipped.
    pub skipped: Option<TrackId>,
}

impl Skip {
    /// What the command is called.
    pub fn name() -> (r: &'static str)
        ensures
            r@ == "skip"@,
    {
        "skip"
    }

    /// How the command is declared.
    pub open spec fn declared() -> CommandInfoView {
        CommandInfoView::plain("skip"@, "Skip the currently playing song"@)
    }

    /// The declaration of the command.
    pub fn info() -> (r: CommandInfo)
        ensures
            r@ == Self::declared(),
    {
        CommandInfo::plain(Skip::name(), "Skip the currently playing song")
    }

    /// The card that confirms the skip of `entry`.
    pub fn card(entry: &QueueEntry) -> (r: Reply)
        ensures
            r@ == skipped_card(entry@),
    {
        let mut embed = Embed::new();
        embed.title = Some(String::from_str("Skipped"));
        embed.push_field("Track", entry.metadata.title.clone(), true);
        embed.push_field("Length", entry.duration_format().to_string(), true);
        let r = Reply { embed, button: None };
        proof {
            assert(r@.embed.fields =~= skipped_card(entry@).embed.fields);
        }
        r
    }

    /// Runs the command for the invoker described by `scene`. Only an
    /// invoker who sits in the bot's channel gets the track skipped; anyone
    /// else gets the reason, and no session changes.
    pub fn run(scene: &VoiceScene, registry: &mut SessionRegistry) -> (r: SkipOutcome)
        ensures
            match controlled_guild(*scene, old(registry)@) {
                Ok(guild) => {
                    &&& final(registry)@ == old(registry)@.insert(
                        guild,
                        old(registry)@[guild].advance(),
                    )
                    &&& r.reply@ == skip_reply(old(registry)@[guild])
                    &&& r.skipped == if old(registry)@[guild].queue.len() == 0 {
                        None
                    } else {
                        Some(old(registry)@[guild].queue[0].source)
                    }
                },
                Err(n) => {
                    &&& final(registry)@ == old(registry)@
                    &&& r.reply@ == ReplyView::text(n.text())
                    &&& r.skipped is None
                },
            },
    {
        let invoker = match check_control(scene) {
            Ok(v) => v,
            Err(n) => {
                return SkipOutcome { reply: n.reply(), skipped: None };
            },
        };
        match registry.remove(invoker.guild_id) {
            Some(mut session) => {
                let r = Skip::execute(&mut session);
                let _ = registry.insert(session);
                proof {
                    assert(registry@ =~= old(registry)@.insert(
                        invoker.guild_id,
                        old(registry)@[invoker.guild_id].advance(),
                    ));
                }
                r
            },
            None => {
                proof {
                    assert(registry@ =~= old(registry)@);
                }
                SkipOutcome {
                    reply: Notice::Voice(crate::playback::VoiceStateError::NotConnected).reply(),
                    skipped: None,
                }
            },
        }
    }

    /// The reply once the transport has been told to stop the skipped track:
    /// the confirmation, or, where the transport had nothing to stop, that
    /// there was nothing to skip. A skip that removed no track needs no
    /// transport, and keeps its reply.
    pub fn finish(outcome: SkipOutcome, stopped: bool) -> (r: Reply)
        ensures
            r@ == if outcome.skipped is Some && !stopped {
                ReplyView::text(Notice::NothingToSkip.text())
            } else {
                outcome.reply@
            },
    {
        match outcome.skipped {
            Some(_) => if stopped {
                outcome.reply
            } else {
                Notice::NothingToSkip.reply()
            },
            None => outcome.reply,
        }
    }

    /// Skips the track that plays in `session` and confirms it; with nothing
    /// queued it says so and changes nothing.
    pub fn execute(session: &mut PlaybackSession) -> (r: SkipOutcome)
        ensures
            final(session)@ == old(session)@.advance(),
            r.reply@ == skip_reply(old(session)@),
            r.skipped == if old(session)@.queue.len() == 0 {
                None
            } else {
                Some(old(session)@.queue[0].source)
            },
            final(session)@.distinct_tracks(),
            r.skipped matches Some(track) ==> !final(session)@.holds(track),
    {
        match session.current() {
            Some(entry) => {
                let _ = session.skip();
                SkipOutcome { reply: Skip::card(&entry), skipped: Some(entry.source) }
            },
            None => {
                let _ = session.skip();
                SkipOutcome { reply: Notice::NothingToSkip.reply(), skipped: None }
            },
        }
    }
}

} // verus!
