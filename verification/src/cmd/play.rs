//! `play`: resolve a track, put it in the queue, and show where it stands.

use crate::embed::{
    field, text_response, Embed, EmbedAuthor, EmbedAuthorView, EmbedView, LinkButton,
    LinkButtonView, Reply, ReplyView,
};
use crate::ids::{GuildId, TrackId};
use crate::playback::VoiceStateError;
use crate::commands::VoiceScene;
use crate::playback::VOIPData;
use crate::registry::{after_get_or_create, reusable, SessionRegistry};
use crate::notice::Notice;
use crate::options::{
    find_option, option_named, CommandInfo, CommandInfoView, CommandOptionType, OptionValue,
    ResolvedOption,
};
use crate::playback::{
    capped, duration_format, finite_total, has_live, is_live_title, metadata_of, opt_text,
    title_is_live, AuxMetadata, QueueEntry, QueueEntryView, SongMetadata,
};
use crate::session::{Enqueued, PlaybackSession, SessionView};
use crate::text::{decimal, md_escaped, push_decimal, remove_md_characters};
use crate::time::{duration_text, format_duration, Duration, NANOS_PER_SEC};
use vstd::prelude::*;

verus! {

/// The command that queues a track.
pub struct Play;

/// The option that holds the search phrase or address.
pub const PARAM_OPTION_NAME: &'static str = "search";

/// The line under a track card: how many entries the queue holds and how
/// long they take, `LIVE` standing for a queue with a live entry.
pub open spec fn queue_footer(count: nat, total: nat, live: bool) -> Seq<char> {
    decimal(count) + " songs in queue - "@ + if live {
        "LIVE"@
    } else {
        duration_text(total / (NANOS_PER_SEC as nat))
    }
}

/// Writes the line under a track card.
pub fn format_queue_footer(count: usize, total: Duration, live: bool) -> (r: String)
    ensures
        r@ == queue_footer(count as nat, total@, live),
{
    let mut out = String::new();
    push_decimal(&mut out, count as u128);
    out.append(" songs in queue - ");
    if live {
        out.append("LIVE");
    } else {
        let span = format_duration(total);
        out.append(span.as_str());
    }
    proof {
        assert(out@ =~= queue_footer(count as nat, total@, live));
    }
    out
}

/// The address a track card's button opens: that of the track, or none.
pub open spec fn button_url(url: Option<Seq<char>>) -> Seq<char> {
    match url {
        Some(u) => u,
        None => Seq::empty(),
    }
}

/// The card that presents a track under `heading`: its picture, its title
/// with markdown escaped, its length, the state of the queue, and a button
/// that opens the track's address.
pub open spec fn track_card(
    heading: Seq<char>,
    entry: QueueEntryView,
    count: nat,
    total: nat,
    live: bool,
) -> ReplyView {
    ReplyView {
        embed: EmbedView {
            title: Some(heading),
            image: Some(entry.metadata.thumbnail),
            fields: seq![
                field("Track"@, md_escaped(entry.metadata.title), true),
                field(
                    "Duration"@,
                    duration_format(entry.metadata.duration@, entry.live).text(),
                    true,
                ),
            ],
            footer: Some(queue_footer(count, total, live)),
            ..EmbedView::blank()
        },
        button: Some(
            LinkButtonView { url: button_url(entry.metadata.url), label: "Open in browser"@ },
        ),
    }
}

/// Builds the card that presents a track.
pub fn make_track_card(
    heading: &str,
    entry: &QueueEntry,
    count: usize,
    total: Duration,
    live: bool,
) -> (r: Reply)
    ensures
        r@ == track_card(heading@, entry@, count as nat, total@, live),
{
    let mut embed = Embed::new();
    embed.title = Some(String::from_str(heading));
    embed.image = Some(entry.metadata.thumbnail.clone());
    embed.push_field("Track", remove_md_characters(entry.metadata.title.as_str()), true);
    embed.push_field("Duration", entry.duration_format().to_string(), true);
    embed.footer = Some(format_queue_footer(count, total, live));
    let url = match &entry.metadata.url {
        Some(u) => u.clone(),
        None => String::new(),
    };
    let r = Reply {
        embed,
        button: Some(LinkButton { url, label: String::from_str("Open in browser") }),
    };
    proof {
        assert(r@.embed.fields =~= track_card(
            heading@,
            entry@,
            count as nat,
            total@,
            live,
        ).embed.fields);
    }
    r
}

/// The name a user is shown under: the nickname in the guild, or else the
/// user's tag, with markdown escaped.
pub open spec fn shown_name(nick: Option<Seq<char>>, tag: Seq<char>) -> Seq<char> {
    md_escaped(
        match nick {
            Some(n) => n,
            None => tag,
        },
    )
}

/// The heading of the reply to an enqueue: a track that arrives in an empty
/// queue plays, any other is added behind those that wait.
pub open spec fn play_heading(position: nat) -> Seq<char> {
    if position == 0 {
        "Playing"@
    } else {
        "Added to queue"@
    }
}

/// The reply to an enqueue that put `entry` at `position` of a queue that
/// now has `count` entries.
pub open spec fn play_reply(
    entry: QueueEntryView,
    position: nat,
    count: nat,
    total: nat,
    live: bool,
    nick: Option<Seq<char>>,
    tag: Seq<char>,
    face: Seq<char>,
) -> ReplyView {
    let card = track_card(play_heading(position), entry, count, total, live);
    ReplyView {
        embed: EmbedView {
            author: Some(EmbedAuthorView { name: shown_name(nick, tag), icon_url: face }),
            ..card.embed
        },
        button: card.button,
    }
}

/// Why the resolver has no source for a request.
#[derive(Clone, Copy, Debug, PartialEq, Eq, Structural)]
pub enum ResolveError {
    /// The address is malformed, or nothing answers there.
    Unreachable,
    /// The search found nothing.
    NoResults,
}

/// The line that tells which request the resolver failed on, and how.
pub open spec fn resolve_failure(query: Seq<char>, error: ResolveError) -> Seq<char> {
    match error {
        ResolveError::Unreachable => "Couldn't load "@ + query,
        ResolveError::NoResults => "No results for "@ + query,
    }
}

/// What `play` needs beside the search phrase: what the resolver reported,
/// and who asked.
#[derive(Debug, PartialEq, Eq)]
pub struct PlayRequest {
    pub aux: Option<AuxMetadata>,
    pub nick: Option<String>,
    pub tag: String,
    pub face: String,
}

/// What `play` did.
#[derive(Debug, PartialEq, Eq)]
pub struct PlayOutcome {
    /// The reply to show.
    pub reply: Reply,
    /// The number of the track instance that was queued, by which the
    /// transport's reports about it are told from those about other tracks.
    pub track: TrackId,
    /// Whether the track waits, so that its start is to be announced when its
    /// turn comes.
    pub announce_start: bool,
}

/// Whether the track that the resolver reported `aux` of is live: its title
/// says so.
pub open spec fn play_live(aux: Option<AuxMetadata>) -> bool {
    title_is_live(metadata_of(aux).title)
}

/// The session after `play` has queued the track that the resolver reported
/// `aux` of.
pub open spec fn after_play(s: SessionView, aux: Option<AuxMetadata>) -> SessionView {
    s.enqueue(metadata_of(aux), play_live(aux))
}

/// The reply of a `play` that found the session as `s`.
pub open spec fn reply_of_play(s: SessionView, request: PlayRequest) -> ReplyView {
    let after = after_play(s, request.aux);
    play_reply(
        s.entry_for(metadata_of(request.aux), play_live(request.aux)),
        s.queue.len(),
        after.queue.len(),
        capped(finite_total(after.queue)),
        has_live(after.queue),
        opt_text(request.nick),
        request.tag@,
        request.face@,
    )
}

impl Play {
    /// What the command is called.
    pub fn name() -> (r: &'static str)
        ensures
            r@ == "play"@,
    {
        "play"
    }

    /// How the command is declared.
    pub open spec fn declared() -> CommandInfoView {
        CommandInfoView::with_option(
                "play"@,
                "Play a YouTube video or any music/video file"@,
                CommandOptionType::Text,
                PARAM_OPTION_NAME@,
                "Search term or a link to a Youtube video or a file"@,
                true,
            )
    }

    /// The declaration of the command.
    pub fn info() -> (r: CommandInfo)
        ensures
            r@ == Self::declared(),
    {
        CommandInfo::with_option(
            Play::name(),
            "Play a YouTube video or any music/video file",
            CommandOptionType::Text,
            PARAM_OPTION_NAME,
            "Search term or a link to a Youtube video or a file",
            true,
        )
    }

    /// The phrase or address to play: the text of the first `search` option.
    /// Without such an option, or where it holds no text, the request is
    /// refused.
    pub fn search_term(options: &Vec<ResolvedOption>) -> (r: Result<String, Notice>)
        ensures
            match option_named(options@, PARAM_OPTION_NAME@) {
                Some(OptionValue::Text(s)) => r is Ok && r->Ok_0@ == s@,
                _ => r == Err::<String, Notice>(Notice::NoSearchTerm),
            },
    {
        match find_option(options, PARAM_OPTION_NAME) {
            Some(OptionValue::Text(s)) => Ok(s.clone()),
            _ => Err(Notice::NoSearchTerm),
        }
    }

    /// Whether the transport has to be asked for a connection before the
    /// track can be queued: it has unless the guild's session is in the
    /// invoker's channel and the live connection reports that very channel.
    pub fn needs_connection(registry: &SessionRegistry, scene: &VoiceScene, invoker: VOIPData) -> (r:
        bool)
        ensures
            r == (!reusable(registry@, invoker.guild_id, invoker.channel_id) || scene.call_channel
                != Some(Some(invoker.channel_id))),
    {
        if registry.needs_connection(invoker.guild_id, invoker.channel_id) {
            return true;
        }
        match scene.call_channel {
            Some(Some(c)) => c.0 != invoker.channel_id.0,
            _ => true,
        }
    }

    /// Files the session that the track goes to: the guild's session if it is
    /// in the invoker's channel already, and otherwise, if the transport
    /// `connected`, a session in that channel. Where a connection was needed
    /// and could not be made, nothing changes, nothing is to be resolved or
    /// queued, and the answer is that the bot is in no voice channel.
    pub fn connect(registry: &mut SessionRegistry, invoker: VOIPData, connected: bool) -> (r: Result<
        (),
        Notice,
    >)
        ensures
            final(registry)@ == after_get_or_create(
                old(registry)@,
                invoker.guild_id,
                invoker.channel_id,
                connected,
            ),
            r == if reusable(old(registry)@, invoker.guild_id, invoker.channel_id) || connected {
                Ok::<(), Notice>(())
            } else {
                Err(Notice::ConnectFailed)
            },
            r is Ok ==> reusable(final(registry)@, invoker.guild_id, invoker.channel_id),
            r is Err ==> final(registry)@ == old(registry)@,
    {
        match registry.get_or_create(invoker.guild_id, invoker.channel_id, connected) {
            Ok(_) => Ok(()),
            Err(_) => Err(Notice::ConnectFailed),
        }
    }

    /// The reply to a request that the resolver has no source for: it names
    /// the request, and tells an address that cannot be reached from a search
    /// without results.
    pub fn resolve_failed(query: &str, error: ResolveError) -> (r: Reply)
        ensures
            r@ == ReplyView::text(resolve_failure(query@, error)),
    {
        let mut line = match error {
            ResolveError::Unreachable => String::from_str("Couldn't load "),
            ResolveError::NoResults => String::from_str("No results for "),
        };
        line.append(query);
        text_response(line.as_str())
    }

    /// The reply to an enqueue of `entry` that reported `enqueued`.
    pub fn reply(
        entry: &QueueEntry,
        enqueued: &Enqueued,
        nick: &Option<String>,
        tag: &str,
        face: String,
    ) -> (r: Reply)
        ensures
            r@ == play_reply(
                entry@,
                enqueued.position as nat,
                enqueued.count as nat,
                enqueued.total_duration@,
                enqueued.live,
                opt_text(*nick),
                tag@,
                face@,
            ),
    {
        let heading = if enqueued.position == 0 {
            "Playing"
        } else {
            "Added to queue"
        };
        let card = make_track_card(
            heading,
            entry,
            enqueued.count,
            enqueued.total_duration,
            enqueued.live,
        );
        let name = match nick {
            Some(n) => remove_md_characters(n.as_str()),
            None => remove_md_characters(tag),
        };
        let mut embed = card.embed;
        embed.author = Some(EmbedAuthor { name, icon_url: face });
        Reply { embed, button: card.button }
    }

    /// Queues the requested track in the session of `guild`: see
    /// [`Play::execute`]. A guild without a session gets nothing queued.
    pub fn run(registry: &mut SessionRegistry, guild: GuildId, request: PlayRequest) -> (r: Result<
        PlayOutcome,
        Notice,
    >)
        ensures
            match r {
                Ok(outcome) => {
                    let before = old(registry)@[guild];
                    &&& old(registry)@.dom().contains(guild)
                    &&& final(registry)@ == old(registry)@.insert(
                        guild,
                        after_play(before, request.aux),
                    )
                    &&& outcome.reply@ == reply_of_play(before, request)
                    &&& outcome.track == before.next_track
                    &&& outcome.announce_start == (before.queue.len() > 0)
                    &&& !before.holds(outcome.track)
                    &&& after_play(before, request.aux).distinct_tracks()
                },
                Err(n) => {
                    &&& !old(registry)@.dom().contains(guild)
                    &&& final(registry)@ == old(registry)@
                    &&& n == Notice::Voice(VoiceStateError::NotConnected)
                },
            },
    {
        match registry.remove(guild) {
            Some(mut session) => {
                let outcome = Play::execute(&mut session, request);
                let _ = registry.insert(session);
                proof {
                    assert(registry@ =~= old(registry)@.insert(
                        guild,
                        after_play(old(registry)@[guild], request.aux),
                    ));
                }
                Ok(outcome)
            },
            None => {
                proof {
                    assert(registry@ =~= old(registry)@);
                }
                Err(Notice::Voice(VoiceStateError::NotConnected))
            },
        }
    }

    /// Queues the requested track in `session` and says what to reply. The
    /// track gets the metadata that the resolver reported, with defaults for
    /// what is missing, and becomes a track instance of its own, with a
    /// number that no entry of the queue has. It plays at once if nothing
    /// else does, and waits at the tail otherwise.
    pub fn execute(session: &mut PlaybackSession, request: PlayRequest) -> (r: PlayOutcome)
        ensures
            final(session)@ == after_play(old(session)@, request.aux),
            r.reply@ == reply_of_play(old(session)@, request),
            r.track == old(session)@.next_track,
            r.announce_start == (old(session)@.queue.len() > 0),
            !old(session)@.holds(r.track),
            final(session)@.distinct_tracks(),
    {
        let metadata = SongMetadata::from_source(request.aux);
        let live = is_live_title(metadata.title.as_str());
        let shown = QueueEntry { source: TrackId(0), metadata: metadata.clone(), live };
        let enqueued = session.enqueue(metadata, live);
        let shown = QueueEntry { source: enqueued.track, ..shown };
        let reply = Play::reply(
            &shown,
            &enqueued,
            &request.nick,
            request.tag.as_str(),
            request.face,
        );
        PlayOutcome { reply, track: enqueued.track, announce_start: enqueued.position > 0 }
    }
}

} // verus!
