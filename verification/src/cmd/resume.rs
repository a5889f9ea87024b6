//! `resume` and `pause`: go on with, or hold, the track that plays.

use crate::commands::{check_control, controlled_guild, VoiceScene};
use crate::embed::{field, Embed, EmbedView, Reply, ReplyView};
use crate::ids::GuildId;
use crate::playback::VoiceStateError;
use crate::registry::SessionRegistry;
use crate::session::SessionView;
use crate::notice::Notice;
use crate::options::{CommandInfo, CommandInfoView};
use crate::playback::{duration_format, QueueEntry, QueueEntryView};
use crate::session::PlaybackSession;
use crate::time::{format_position, position_text, Duration, NANOS_PER_SEC};
use vstd::prelude::*;

verus! {

/// The command that resumes a paused track.
pub struct Resume;

/// The command that pauses the track that plays.
pub struct Pause;

/// How far into a track the playback is, out of its length. On a live track
/// both sides read `LIVE`; otherwise the start of the track reads `0s`.
pub open spec fn progress(entry: QueueEntryView, position: nat) -> Seq<char> {
    let played = if entry.live {
        "LIVE"@
    } else {
        position_text(position / (NANOS_PER_SEC as nat))
    };
    played + " / "@ + duration_format(entry.metadata.duration@, entry.live).text()
}

/// The card that shows `entry` under `heading` with the playback at
/// `position`.
pub open spec fn progress_card(heading: Seq<char>, entry: QueueEntryView, position: nat) -> ReplyView {
    ReplyView {
        embed: EmbedView {
            title: Some(heading),
            image: Some(entry.metadata.thumbnail),
            fields: seq![
                field("Track"@, entry.metadata.title, true),
                field("Time"@, progress(entry, position), true),
            ],
            ..EmbedView::blank()
        },
        button: None,
    }
}

/// The position that the transport reports, or the start of the track.
pub open spec fn position_or_start(position: Option<Duration>) -> nat {
    match position {
        Some(p) => p@,
        None => 0,
    }
}

fn make_progress_card(heading: &str, entry: &QueueEntry, position: Option<Duration>) -> (r: Reply)
    ensures
        r@ == progress_card(heading@, entry@, position_or_start(position)),
{
    let position = match position {
        Some(p) => p,
        None => Duration::zero(),
    };
    let mut time = if entry.live {
        String::from_str("LIVE")
    } else {
        format_position(position)
    };
    time.append(" / ");
    let length = entry.duration_format().to_string();
    time.append(length.as_str());
    let mut embed = Embed::new();
    embed.title = Some(String::from_str(heading));
    embed.image = Some(entry.metadata.thumbnail.clone());
    embed.push_field("Track", entry.metadata.title.clone(), true);
    embed.push_field("Time", time, true);
    let r = Reply { embed, button: None };
    proof {
        assert(r@.embed.fields =~= progress_card(
            heading@,
            entry@,
            position_or_start(Some(position)),
        ).embed.fields);
    }
    r
}

fn head_or(session: &PlaybackSession, nothing: Notice) -> (r: Result<QueueEntry, Notice>)
    ensures
        match r {
            Ok(entry) => session@.queue.len() > 0 && entry@ == session@.queue[0],
            Err(n) => session@.queue.len() == 0 && n == nothing,
        },
{
    match session.current() {
        Some(entry) => Ok(entry),
        None => Err(nothing),
    }
}

/// The track that a resume or a pause acts on: the head of the queue of the
/// invoker's guild, for an invoker who sits in the bot's channel; `nothing`
/// where that queue is empty.
pub open spec fn controlled_head(
    scene: VoiceScene,
    sessions: Map<GuildId, SessionView>,
    nothing: Notice,
) -> Result<QueueEntryView, Notice> {
    match controlled_guild(scene, sessions) {
        Err(n) => Err(n),
        Ok(guild) => if sessions[guild].queue.len() == 0 {
            Err(nothing)
        } else {
            Ok(sessions[guild].queue[0])
        },
    }
}

fn find_head(scene: &VoiceScene, registry: &SessionRegistry, nothing: Notice) -> (r: Result<
    QueueEntry,
    Notice,
>)
    ensures
        match controlled_head(*scene, registry@, nothing) {
            Ok(entry) => r is Ok && r->Ok_0@ == entry,
            Err(n) => r == Err::<QueueEntry, Notice>(n),
        },
{
    let invoker = match check_control(scene) {
        Ok(v) => v,
        Err(n) => {
            return Err(n);
        },
    };
    match registry.get(invoker.guild_id) {
        Some(session) => head_or(session, nothing),
        None => Err(Notice::Voice(VoiceStateError::NotConnected)),
    }
}

impl Resume {
    /// What the command is called.
    pub fn name() -> (r: &'static str)
        ensures
            r@ == "resume"@,
    {
        "resume"
    }

    /// How the command is declared.
    pub open spec fn declared() -> CommandInfoView {
        CommandInfoView::plain("resume"@, "Resume the currently paused song"@)
    }

    /// The declaration of the command.
    pub fn info() -> (r: CommandInfo)
        ensures
            r@ == Self::declared(),
    {
        CommandInfo::plain(Resume::name(), "Resume the currently paused song")
    }

    /// Runs the command for the invoker described by `scene`: see
    /// [`controlled_head`]. `Ok` holds the track that the transport is to
    /// resume.
    pub fn run(scene: &VoiceScene, registry: &SessionRegistry) -> (r: Result<QueueEntry, Notice>)
        ensures
            match controlled_head(*scene, registry@, Notice::NothingPaused) {
                Ok(entry) => r is Ok && r->Ok_0@ == entry,
                Err(n) => r == Err::<QueueEntry, Notice>(n),
            },
    {
        find_head(scene, registry, Notice::NothingPaused)
    }

    /// The track that the transport is to resume: the head of the queue.
    /// With an empty queue nothing is paused.
    pub fn execute(session: &PlaybackSession) -> (r: Result<QueueEntry, Notice>)
        ensures
            match r {
                Ok(entry) => session@.queue.len() > 0 && entry@ == session@.queue[0],
                Err(n) => session@.queue.len() == 0 && n == Notice::NothingPaused,
            },
    {
        head_or(session, Notice::NothingPaused)
    }

    /// The reply once the transport has answered: the track and how far into
    /// it the playback is, or a failure where the transport `resumed`
    /// nothing.
    pub fn reply(entry: &QueueEntry, position: Option<Duration>, resumed: bool) -> (r: Reply)
        ensures
            r@ == if resumed {
                progress_card("Resumed"@, entry@, position_or_start(position))
            } else {
                ReplyView::text(Notice::ResumeFailed.text())
            },
    {
        if resumed {
            make_progress_card("Resumed", entry, position)
        } else {
            Notice::ResumeFailed.reply()
        }
    }
}

impl Pause {
    /// What the command is called.
    pub fn name() -> (r: &'static str)
        ensures
            r@ == "pause"@,
    {
        "pause"
    }

    /// How the command is declared.
    pub open spec fn declared() -> CommandInfoView {
        CommandInfoView::plain("pause"@, "Pause the currently playing song"@)
    }

    /// The declaration of the command.
    pub fn info() -> (r: CommandInfo)
        ensures
            r@ == Self::declared(),
    {
        CommandInfo::plain(Pause::name(), "Pause the currently playing song")
    }

    /// Runs the command for the invoker described by `scene`: see
    /// [`controlled_head`]. `Ok` holds the track that the transport is to
    /// pause.
    pub fn run(scene: &VoiceScene, registry: &SessionRegistry) -> (r: Result<QueueEntry, Notice>)
        ensures
            match controlled_head(*scene, registry@, Notice::NothingToPause) {
                Ok(entry) => r is Ok && r->Ok_0@ == entry,
                Err(n) => r == Err::<QueueEntry, Notice>(n),
            },
    {
        find_head(scene, registry, Notice::NothingToPause)
    }

    /// The track that the transport is to pause: the head of the queue. With
    /// an empty queue nothing plays.
    pub fn execute(session: &PlaybackSession) -> (r: Result<QueueEntry, Notice>)
        ensures
            match r {
                Ok(entry) => session@.queue.len() > 0 && entry@ == session@.queue[0],
                Err(n) => session@.queue.len() == 0 && n == Notice::NothingToPause,
            },
    {
        head_or(session, Notice::NothingToPause)
    }

    /// The reply once the transport has answered: the track and how far into
    /// it the playback is, or a failure where the transport `paused`
    /// nothing.
    pub fn reply(entry: &QueueEntry, position: Option<Duration>, paused: bool) -> (r: Reply)
        ensures
            r@ == if paused {
                progress_card("Paused"@, entry@, position_or_start(position))
            } else {
                ReplyView::text(Notice::PauseFailed.text())
            },
    {
        if paused {
            make_progress_card("Paused", entry, position)
        } else {
            Notice::PauseFailed.reply()
        }
    }
}

} // verus!
