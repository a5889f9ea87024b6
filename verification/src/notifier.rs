//! What follows from the transport's reports about a track: whether the
//! queue moves on, and what is announced.

use crate::cmd::play::{make_track_card, track_card};
use crate::embed::{Reply, ReplyView};
use crate::ids::{GuildId, TrackId};
use crate::registry::SessionRegistry;
use crate::notice::Notice;
use crate::playback::{capped, finite_total, has_live};
use crate::session::{PlaybackSession, SessionView};
use crate::time::Duration;
use vstd::prelude::*;

verus! {

/// What is announced of a session when a track has ended: the track that
/// plays now with the state of the queue, or the end of the queue.
pub open spec fn announcement(s: SessionView) -> ReplyView {
    if s.queue.len() == 0 {
        ReplyView::text(Notice::EndOfQueue.text())
    } else {
        track_card(
            "Playing"@,
            s.queue[0],
            s.queue.len(),
            capped(finite_total(s.queue)),
            has_live(s.queue),
        )
    }
}

/// The announcement for the state that `session` is in.
pub fn announce(session: &PlaybackSession) -> (r: Reply)
    ensures
        r@ == announcement(session@),
{
    match session.current() {
        Some(entry) => {
            let totals = session.totals();
            make_track_card("Playing", &entry, totals.0, totals.1, totals.2)
        },
        None => Notice::EndOfQueue.reply(),
    }
}

/// The session after the transport has reported, at playback position
/// `position`, that `track` is over. A report at position zero was sent
/// before the track had begun, and counts for nothing.
pub open spec fn after_report(s: SessionView, track: TrackId, position: Duration) -> SessionView {
    if position@ == 0 {
        s
    } else {
        s.track_ended(track)
    }
}

/// Handles the transport's report that `track` has ended. The queue moves on
/// if `track` is still the one that plays, and the new state is announced in
/// the channel the track was asked for in.
pub fn on_track_end(session: &mut PlaybackSession, track: TrackId, position: Duration) -> (r:
    Option<Reply>)
    ensures
        final(session)@ == after_report(old(session)@, track, position),
        match r {
            Some(reply) => position@ != 0 && reply@ == announcement(final(session)@),
            None => position@ == 0,
        },
        final(session)@.distinct_tracks(),
        position@ != 0 && old(session)@.plays(track) ==> !final(session)@.holds(track),
{
    if session.track_reported(track, position) {
        Some(announce(session))
    } else {
        None
    }
}

/// Handles the transport's report that `track` has failed. The track is not
/// tried again: the queue moves on as it does at the end of a track, and the
/// one who asked for the track is told that it could not be played.
pub fn on_track_error(session: &mut PlaybackSession, track: TrackId, position: Duration) -> (r:
    Option<Reply>)
    ensures
        final(session)@ == after_report(old(session)@, track, position),
        match r {
            Some(reply) => position@ != 0 && reply@ == ReplyView::text(
                Notice::PlaybackFailed.text(),
            ),
            None => position@ == 0,
        },
        final(session)@.distinct_tracks(),
        position@ != 0 && old(session)@.plays(track) ==> !final(session)@.holds(track),
{
    if session.track_reported(track, position) {
        Some(Notice::PlaybackFailed.reply())
    } else {
        None
    }
}

/// What a report does to the sessions of all guilds: the session of `guild`
/// takes it, and no other session is touched. Without a session of `guild`
/// the report counts for nothing.
pub open spec fn sessions_after_report(
    sessions: Map<GuildId, SessionView>,
    guild: GuildId,
    track: TrackId,
    position: Duration,
) -> Map<GuildId, SessionView> {
    if sessions.dom().contains(guild) {
        sessions.insert(guild, after_report(sessions[guild], track, position))
    } else {
        sessions
    }
}

/// Whether a report is acted upon: it must come from a guild with a session,
/// and from a track that had begun.
pub open spec fn heeded(sessions: Map<GuildId, SessionView>, guild: GuildId, position: Duration) -> bool {
    sessions.dom().contains(guild) && position@ != 0
}

/// Handles the report that `track` of `guild` has ended: see
/// [`on_track_end`].
pub fn track_end_report(
    registry: &mut SessionRegistry,
    guild: GuildId,
    track: TrackId,
    position: Duration,
) -> (r: Option<Reply>)
    ensures
        final(registry)@ == sessions_after_report(old(registry)@, guild, track, position),
        match r {
            Some(reply) => heeded(old(registry)@, guild, position) && reply@ == announcement(
                final(registry)@[guild],
            ),
            None => !heeded(old(registry)@, guild, position),
        },
{
    match registry.remove(guild) {
        Some(mut session) => {
            let r = on_track_end(&mut session, track, position);
            let _ = registry.insert(session);
            proof {
                assert(registry@ =~= sessions_after_report(old(registry)@, guild, track, position));
            }
            r
        },
        None => {
            proof {
                assert(registry@ =~= old(registry)@);
            }
            None
        },
    }
}

/// Handles the report that `track` of `guild` has failed: see
/// [`on_track_error`].
pub fn track_error_report(
    registry: &mut SessionRegistry,
    guild: GuildId,
    track: TrackId,
    position: Duration,
) -> (r: Option<Reply>)
    ensures
        final(registry)@ == sessions_after_report(old(registry)@, guild, track, position),
        match r {
            Some(reply) => heeded(old(registry)@, guild, position) && reply@ == ReplyView::text(
                Notice::PlaybackFailed.text(),
            ),
            None => !heeded(old(registry)@, guild, position),
        },
{
    match registry.remove(guild) {
        Some(mut session) => {
            let r = on_track_error(&mut session, track, position);
            let _ = registry.insert(session);
            proof {
                assert(registry@ =~= sessions_after_report(old(registry)@, guild, track, position));
            }
            r
        },
        None => {
            proof {
                assert(registry@ =~= old(registry)@);
            }
            None
        },
    }
}

/// Handles the transport's report that it has dropped the connection of
/// `guild` by itself, as it does when the last listener has left: the
/// session of the guild is discarded and handed back. A guild without a
/// session is left as it is.
pub fn on_disconnect(registry: &mut SessionRegistry, guild: GuildId) -> (r: Option<PlaybackSession>)
    ensures
        final(registry)@ == old(registry)@.remove(guild),
        match r {
            Some(s) => old(registry)@.dom().contains(guild) && s@ == old(registry)@[guild],
            None => !old(registry)@.dom().contains(guild),
        },
{
    registry.remove(guild)
}

/// However a skip and the reports for one track arrive, the track moves the
/// queue once: after a skip that removed `track`, neither the report of its
/// end nor the report of its failure changes the session any more.
pub proof fn lemma_reports_after_skip(s: SessionView, track: TrackId, position: Duration)
    requires
        s.numbered(),
        s.plays(track),
    ensures
        after_report(s.advance(), track, position) == s.advance(),
        after_report(after_report(s, track, position), track, position) == after_report(
            s,
            track,
            position,
        ),
{
    crate::session::lemma_numbered_is_distinct(s);
    crate::session::lemma_single_advance(s, track);
}

} // verus!
