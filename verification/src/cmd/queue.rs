//! `queue`: show the track that plays and those that wait.

use crate::cmd::play::{format_queue_footer, queue_footer};
use crate::commands::{check_view, viewed_guild, VoiceScene};
use crate::embed::{field, Embed, EmbedView, Reply, ReplyView};
use crate::playback::VoiceStateError;
use crate::registry::SessionRegistry;
use crate::notice::Notice;
use crate::options::{CommandInfo, CommandInfoView};
use crate::playback::{
    capped, duration_format, finite_total, get_queue_duration, has_live, queue_has_live,
    queue_view, QueueEntry, QueueEntryView,
};
use crate::text::{
    decimal, format_with_url, linked, md_escaped, push_decimal, remove_md_characters,
    truncate_unicode, truncated,
};
use crate::time::{format_position, position_text, Duration, NANOS_PER_SEC};
use vstd::prelude::*;

verus! {

/// The command that shows the queue.
pub struct Queue;

/// The most characters of a title shown for the track that plays.
pub const CURRENT_TITLE_CHARS: usize = 67;

/// The most characters of a title shown for a track that waits.
pub const PENDING_TITLE_CHARS: usize = 37;

/// The most tracks that are listed behind the one that plays.
pub const PENDING_ROWS: usize = 4;

/// How an entry's title is shown in the listing: cut to `max` characters,
/// escaped, and linked to the track's address where it has one.
pub open spec fn row_title(entry: QueueEntryView, max: nat) -> Seq<char> {
    linked(md_escaped(truncated(entry.metadata.title, max)), entry.metadata.url)
}

/// The three columns of the listing.
pub struct QueueRows {
    pub positions: Seq<char>,
    pub titles: Seq<char>,
    pub durations: Seq<char>,
    pub live: bool,
}

/// The columns for the entries at positions 1 to `upto - 1`: one line each
/// in every column, and whether one of those entries is live.
pub open spec fn queue_rows(queue: Seq<QueueEntryView>, upto: nat) -> QueueRows
    decreases upto,
{
    if upto <= 1 {
        QueueRows {
            positions: Seq::empty(),
            titles: Seq::empty(),
            durations: Seq::empty(),
            live: false,
        }
    } else {
        let before = queue_rows(queue, (upto - 1) as nat);
        let entry = queue[upto - 1];
        QueueRows {
            positions: before.positions + "#"@ + decimal((upto - 1) as nat) + " \n"@,
            titles: before.titles + row_title(entry, PENDING_TITLE_CHARS as nat) + " \n"@,
            durations: before.durations + duration_format(
                entry.metadata.duration@,
                entry.live,
            ).text() + " \n"@,
            live: before.live || entry.live,
        }
    }
}

/// One more than the position of the last entry that is listed.
pub open spec fn listed(len: nat) -> nat {
    if len <= PENDING_ROWS {
        len
    } else {
        (PENDING_ROWS + 1) as nat
    }
}

fn show_title(entry: &QueueEntry, max: usize) -> (r: String)
    ensures
        r@ == row_title(entry@, max as nat),
{
    let cut = truncate_unicode(entry.metadata.title.as_str(), max);
    format_with_url(remove_md_characters(cut.as_str()), entry.metadata.url.as_ref())
}

/// Writes the columns of the listing: position, title and length of up to
/// four entries behind the one that plays, and whether one of them is live.
pub fn format_queue_string(queue: &Vec<QueueEntry>) -> (r: (String, String, String, bool))
    ensures
        ({
            let rows = queue_rows(queue_view(queue@), listed(queue@.len()));
            &&& r.0@ == rows.positions
            &&& r.1@ == rows.titles
            &&& r.2@ == rows.durations
            &&& r.3 == rows.live
        }),
{
    let ghost q = queue_view(queue@);
    let mut pos_out = String::new();
    let mut title_out = String::new();
    let mut duration_out = String::new();
    let mut live = false;
    let end: usize = if queue.len() <= PENDING_ROWS {
        queue.len()
    } else {
        PENDING_ROWS + 1
    };
    let mut i: usize = 1;
    while i < end
        invariant
            1 <= i,
            i <= end || (end == 0 && i == 1),
            end <= queue.len(),
            end == listed(queue@.len()),
            q == queue_view(queue@),
            pos_out@ == queue_rows(q, i as nat).positions,
            title_out@ == queue_rows(q, i as nat).titles,
            duration_out@ == queue_rows(q, i as nat).durations,
            live == queue_rows(q, i as nat).live,
        decreases end - i,
    {
        let entry = &queue[i];
        let title = show_title(entry, PENDING_TITLE_CHARS);
        let duration = entry.duration_format().to_string();
        live = entry.live || live;
        pos_out.append("#");
        push_decimal(&mut pos_out, i as u128);
        pos_out.append(" \n");
        title_out.append(title.as_str());
        title_out.append(" \n");
        duration_out.append(duration.as_str());
        duration_out.append(" \n");
        proof {
            assert(q[i as int] == entry@);
            let next = queue_rows(q, (i + 1) as nat);
            assert(pos_out@ =~= next.positions);
            assert(title_out@ =~= next.titles);
            assert(duration_out@ =~= next.durations);
        }
        i = i + 1;
    }
    (pos_out, title_out, duration_out, live)
}

/// What is left of `total` nanoseconds once `position` of them are played.
pub open spec fn time_left(total: nat, position: nat) -> nat {
    if position <= total {
        (total - position) as nat
    } else {
        0
    }
}

/// The line for the track that plays: its title, and how far into it the
/// playback is. The start of the track reads `0s`; a length that is not
/// known reads `n/a`.
pub open spec fn current_line(entry: QueueEntryView, position: nat) -> Seq<char> {
    row_title(entry, CURRENT_TITLE_CHARS as nat) + " \n**[ "@ + position_text(
        position / (NANOS_PER_SEC as nat),
    ) + " / "@ + duration_format(entry.metadata.duration@, entry.live).text() + " ]**"@
}

/// The reply that shows a queue of which `position` nanoseconds of the head
/// have been played. The time in the footer is what is left to play, or
/// `LIVE` if any entry is live.
pub open spec fn queue_reply(queue: Seq<QueueEntryView>, position: nat) -> ReplyView {
    if queue.len() == 0 {
        ReplyView::text(Notice::QueueEmpty.text())
    } else {
        let rows = queue_rows(queue, listed(queue.len()));
        let current = field("Currently playing: "@, current_line(queue[0], position), false);
        ReplyView {
            embed: EmbedView {
                title: Some("Queue"@),
                fields: if queue.len() < 2 {
                    seq![current]
                } else {
                    seq![
                        current,
                        field("Position"@, rows.positions, true),
                        field("Track"@, rows.titles, true),
                        field("Duration"@, rows.durations, true),
                    ]
                },
                footer: Some(
                    queue_footer(
                        queue.len(),
                        time_left(capped(finite_total(queue)), position),
                        has_live(queue),
                    ),
                ),
                ..EmbedView::blank()
            },
            button: None,
        }
    }
}

impl Queue {
    /// What the command is called.
    pub fn name() -> (r: &'static str)
        ensures
            r@ == "queue"@,
    {
        "queue"
    }

    /// How the command is declared.
    pub open spec fn declared() -> CommandInfoView {
        CommandInfoView::plain("queue"@, "View currently queued songs"@)
    }

    /// The declaration of the command.
    pub fn info() -> (r: CommandInfo)
        ensures
            r@ == Self::declared(),
    {
        CommandInfo::plain(Queue::name(), "View currently queued songs")
    }

    /// Runs the command for the invoker described by `scene`: the queue of
    /// the invoker's guild is shown, provided the bot is connected there.
    /// `position` is the position that the transport reports of the track
    /// that plays, if it reports one.
    pub fn run(scene: &VoiceScene, registry: &SessionRegistry, position: Option<Duration>) -> (r:
        Reply)
        ensures
            r@ == match viewed_guild(*scene, registry@) {
                Ok(guild) => queue_reply(
                    registry@[guild].queue,
                    match position {
                        Some(p) => p@,
                        None => 0,
                    },
                ),
                Err(n) => ReplyView::text(n.text()),
            },
    {
        let invoker = match check_view(scene) {
            Ok(v) => v,
            Err(n) => {
                return n.reply();
            },
        };
        match registry.get(invoker.guild_id) {
            Some(session) => {
                let queue = session.snapshot();
                Queue::reply(&queue, position)
            },
            None => Notice::Voice(VoiceStateError::NotConnected).reply(),
        }
    }

    /// The reply that shows `queue`, whose head has been played up to
    /// `position`, if the transport reports a position.
    pub fn reply(queue: &Vec<QueueEntry>, position: Option<Duration>) -> (r: Reply)
        ensures
            r@ == queue_reply(
                queue_view(queue@),
                match position {
                    Some(p) => p@,
                    None => 0,
                },
            ),
    {
        if queue.len() == 0 {
            return Notice::QueueEmpty.reply();
        }
        let position = match position {
            Some(p) => p,
            None => Duration::zero(),
        };
        let ghost q = queue_view(queue@);
        let total = get_queue_duration(queue);
        let live = queue_has_live(queue);
        let current = &queue[0];
        assert(q[0] == current@);
        let mut info = show_title(current, CURRENT_TITLE_CHARS);
        info.append(" \n**[ ");
        let played = format_position(position);
        info.append(played.as_str());
        info.append(" / ");
        let length = current.duration_format().to_string();
        info.append(length.as_str());
        info.append(" ]**");
        proof {
            assert(info@ =~= current_line(q[0], position@));
        }
        let rows = format_queue_string(queue);
        let mut embed = Embed::new();
        embed.title = Some(String::from_str("Queue"));
        embed.push_field("Currently playing: ", info, false);
        if queue.len() >= 2 {
            embed.push_field("Position", rows.0, true);
            embed.push_field("Track", rows.1, true);
            embed.push_field("Duration", rows.2, true);
        }
        embed.footer = Some(
            format_queue_footer(queue.len(), total.saturating_sub(position), live),
        );
        let r = Reply { embed, button: None };
        proof {
            assert(r@.embed.fields =~= queue_reply(q, position@).embed.fields);
        }
        r
    }
}

} // verus!
