//! The playback session of one guild: the track that plays, the tracks that
//! wait, and the channel the bot is connected to.

use crate::ids::{ChannelId, GuildId, TrackId};
use crate::playback::{
    capped, finite_total, get_queue_duration, has_live, queue_has_live, queue_view, QueueEntry,
    QueueEntryView, SongMetadata, SongMetadataView,
};
use crate::time::Duration;
use vstd::prelude::*;

verus! {

/// Why a session could not do what it was asked.
#[derive(Clone, Copy, Debug, PartialEq, Eq, Structural)]
pub enum SessionError {
    /// There is no track to skip.
    NothingQueued,
}

/// Why a seek was refused.
#[derive(Clone, Copy, Debug, PartialEq, Eq, Structural)]
pub enum SeekError {
    /// The queue is empty.
    NothingPlaying,
    /// The target is at or behind the end of the track, which is `max` long.
    PastEnd { max: Duration },
    /// The target is at or before the position `current` that was already
    /// played.
    Backward { current: Duration },
}

/// What a seek to `position` gives on a track whose length and liveness are
/// `track`, `None` standing for an empty queue, when `elapsed` of it has been
/// played. A length counts only where it is known: on a track that is not
/// live and whose length is not zero.
pub open spec fn seek_verdict(
    track: Option<(Duration, bool)>,
    position: Duration,
    elapsed: Duration,
) -> Result<Duration, SeekError> {
    match track {
        None => Err(SeekError::NothingPlaying),
        Some((length, live)) => if !live && length@ > 0 && position@ >= length@ {
            Err(SeekError::PastEnd { max: length })
        } else if position@ <= elapsed@ {
            Err(SeekError::Backward { current: elapsed })
        } else {
            Ok(position)
        },
    }
}

/// Decides a seek on plain values: see [`seek_verdict`].
pub fn seek_decision(track: Option<(Duration, bool)>, position: Duration, elapsed: Duration) -> (r:
    Result<Duration, SeekError>)
    ensures
        r == seek_verdict(track, position, elapsed),
{
    match track {
        None => Err(SeekError::NothingPlaying),
        Some((length, live)) => {
            if !live && length.nanos > 0 && position.nanos >= length.nanos {
                Err(SeekError::PastEnd { max: length })
            } else if position.nanos <= elapsed.nanos {
                Err(SeekError::Backward { current: elapsed })
            } else {
                Ok(position)
            }
        },
    }
}

/// A seek never succeeds at or before the position already played, nor at or
/// behind the end of a track whose length is known; on a track that plays it
/// succeeds for every other target, and then gives that target back.
pub proof fn lemma_seek_window(
    length: Duration,
    live: bool,
    position: Duration,
    elapsed: Duration,
)
    ensures
        position@ <= elapsed@ ==> seek_verdict(Some((length, live)), position, elapsed) is Err,
        !live && length@ > 0 && position@ >= length@ ==> seek_verdict(
            Some((length, live)),
            position,
            elapsed,
        ) is Err,
        elapsed@ < position@ && (live || length@ == 0 || position@ < length@) ==> seek_verdict(
            Some((length, live)),
            position,
            elapsed,
        ) == Ok::<Duration, SeekError>(position),
{
}

/// The number of the track instance that follows `track`. The numbers run
/// in a circle: after the largest comes zero.
pub open spec fn successor(track: TrackId) -> TrackId {
    if track.0 == u128::MAX {
        TrackId(0)
    } else {
        TrackId((track.0 + 1) as u128)
    }
}

/// The number that was given `k` enqueues before `next` is given.
pub open spec fn number_before(next: TrackId, k: int) -> TrackId {
    if next.0 >= k {
        TrackId((next.0 - k) as u128)
    } else {
        TrackId((next.0 + 0x1_0000_0000_0000_0000_0000_0000_0000_0000 - k) as u128)
    }
}

/// The mathematical content of a [`PlaybackSession`]: entry 0 of the queue,
/// if there is one, is the track that plays, the others wait in order of
/// arrival. Every entry is one track instance, and carries the number that
/// the session gave it when it arrived.
pub struct SessionView {
    pub guild_id: GuildId,
    pub channel_id: ChannelId,
    pub queue: Seq<QueueEntryView>,
    /// The number that the next track instance gets.
    pub next_track: TrackId,
}

impl SessionView {
    /// A session that has just connected: nothing plays, nothing waits, and
    /// the first track instance will be number one.
    pub open spec fn connected(guild_id: GuildId, channel_id: ChannelId) -> SessionView {
        SessionView { guild_id, channel_id, queue: Seq::empty(), next_track: TrackId(1) }
    }

    /// The entry that a track with this metadata becomes when it arrives.
    pub open spec fn entry_for(self, metadata: SongMetadataView, live: bool) -> QueueEntryView {
        QueueEntryView { source: self.next_track, metadata, live }
    }

    /// The session after a track has been put at the tail, as a new track
    /// instance with the next number.
    pub open spec fn enqueue(self, metadata: SongMetadataView, live: bool) -> SessionView {
        SessionView {
            queue: self.queue.push(self.entry_for(metadata, live)),
            next_track: successor(self.next_track),
            ..self
        }
    }

    /// The session after each of `tracks` has been put at the tail, in order.
    pub open spec fn enqueue_all(self, tracks: Seq<(SongMetadataView, bool)>) -> SessionView
        decreases tracks.len(),
    {
        if tracks.len() == 0 {
            self
        } else {
            self.enqueue_all(tracks.drop_last()).enqueue(tracks.last().0, tracks.last().1)
        }
    }

    /// The session after its head has left; an empty session stays as it is.
    pub open spec fn advance(self) -> SessionView {
        if self.queue.len() == 0 {
            self
        } else {
            SessionView { queue: self.queue.drop_first(), ..self }
        }
    }

    /// The session after the transport has reported the end of `track`: the
    /// head leaves if it is that track, and nothing happens otherwise.
    pub open spec fn track_ended(self, track: TrackId) -> SessionView {
        if self.plays(track) {
            self.advance()
        } else {
            self
        }
    }

    /// The session after everything has been cleared; it stays connected.
    pub open spec fn stop(self) -> SessionView {
        SessionView { queue: Seq::empty(), ..self }
    }

    /// The session after the connection has moved to `channel_id`.
    pub open spec fn moved(self, channel_id: ChannelId) -> SessionView {
        SessionView { channel_id, ..self }
    }

    /// Whether `track` is the track that plays.
    pub open spec fn plays(self, track: TrackId) -> bool {
        self.queue.len() > 0 && self.queue[0].source == track
    }

    /// Whether `track` is anywhere in the queue.
    pub open spec fn holds(self, track: TrackId) -> bool {
        exists|i: int| 0 <= i < self.queue.len() && (#[trigger] self.queue[i]).source == track
    }

    /// Whether no track instance is in the queue twice.
    pub open spec fn distinct_tracks(self) -> bool {
        forall|i: int, j: int|
            0 <= i < j < self.queue.len() ==> (#[trigger] self.queue[i]).source != (
            #[trigger] self.queue[j]).source
    }

    /// Whether the entries carry the numbers that the session gave out: the
    /// last entry the number before `next_track`, the one before it the
    /// number before that, and so on; and the queue is no longer than a
    /// machine can hold. Every session is numbered like this.
    pub open spec fn numbered(self) -> bool {
        &&& self.queue.len() <= usize::MAX
        &&& forall|i: int|
            0 <= i < self.queue.len() ==> (#[trigger] self.queue[i]).source == number_before(
                self.next_track,
                self.queue.len() - i,
            )
    }

    /// The length and liveness of the track that plays.
    pub open spec fn playing(self) -> Option<(Duration, bool)> {
        if self.queue.len() == 0 {
            None
        } else {
            Some((self.queue[0].metadata.duration, self.queue[0].live))
        }
    }
}

/// In a session that is numbered as every session is, no track instance is
/// in the queue twice, and the number that the next arrival gets is not in
/// the queue either.
pub proof fn lemma_numbered_is_distinct(s: SessionView)
    requires
        s.numbered(),
    ensures
        s.distinct_tracks(),
        s.queue.len() < usize::MAX ==> !s.holds(s.next_track),
{
    assert forall|i: int, j: int| 0 <= i < j < s.queue.len() implies (#[trigger] s.queue[i]).source
        != (#[trigger] s.queue[j]).source by {
        assert(s.queue[i].source == number_before(s.next_track, s.queue.len() - i));
        assert(s.queue[j].source == number_before(s.next_track, s.queue.len() - j));
    }
    assert forall|i: int| 0 <= i < s.queue.len() implies (#[trigger] s.queue[i]).source
        != s.next_track by {
        assert(s.queue[i].source == number_before(s.next_track, s.queue.len() - i));
    }
}

/// Whatever a session does keeps it numbered; an enqueue does so as long as
/// the queue has room for one more.
pub proof fn lemma_numbered_stays(
    s: SessionView,
    metadata: SongMetadataView,
    live: bool,
    track: TrackId,
    channel_id: ChannelId,
)
    requires
        s.numbered(),
    ensures
        SessionView::connected(s.guild_id, channel_id).numbered(),
        s.queue.len() < usize::MAX ==> s.enqueue(metadata, live).numbered(),
        s.advance().numbered(),
        s.track_ended(track).numbered(),
        s.stop().numbered(),
        s.moved(channel_id).numbered(),
{
    let e = s.enqueue(metadata, live);
    if s.queue.len() < usize::MAX {
        assert forall|i: int| 0 <= i < e.queue.len() implies (#[trigger] e.queue[i]).source
            == number_before(e.next_track, e.queue.len() - i) by {
            if i < s.queue.len() {
                assert(e.queue[i] == s.queue[i]);
                assert(s.queue[i].source == number_before(s.next_track, s.queue.len() - i));
            }
        }
    }
    let a = s.advance();
    assert forall|i: int| 0 <= i < a.queue.len() implies (#[trigger] a.queue[i]).source
        == number_before(a.next_track, a.queue.len() - i) by {
        if s.queue.len() > 0 {
            assert(a.queue[i] == s.queue[i + 1]);
            assert(s.queue[i + 1].source == number_before(s.next_track, s.queue.len() - (i + 1)));
        }
    }
}

/// What an enqueue reports back: which track instance the entry is, where it
/// stands, and the queue as a whole once it is in.
#[derive(Clone, Copy, Debug, PartialEq, Eq, Structural)]
pub struct Enqueued {
    /// The number of the new track instance.
    pub track: TrackId,
    /// The position of the new entry; at position 0 it plays at once.
    pub position: usize,
    /// The number of entries, the one that plays included.
    pub count: usize,
    /// The summed length of the entries that are not live.
    pub total_duration: Duration,
    /// Whether any entry is live.
    pub live: bool,
}

impl Enqueued {
    /// Whether the new entry is the one that plays.
    pub fn started(&self) -> (r: bool)
        ensures
            r == (self.position == 0),
    {
        self.position == 0
    }
}

/// What is reported of a queue `queue` whose last entry has just arrived.
pub open spec fn enqueued_of(queue: Seq<QueueEntryView>, r: Enqueued) -> bool {
    &&& queue.len() > 0
    &&& r.track == queue.last().source
    &&& r.position == queue.len() - 1
    &&& r.count == queue.len()
    &&& r.total_duration@ == capped(finite_total(queue))
    &&& r.live == has_live(queue)
}

/// The playback session of one guild.
#[derive(Debug)]
pub struct PlaybackSession {
    guild_id: GuildId,
    channel_id: ChannelId,
    queue: Vec<QueueEntry>,
    next_track: TrackId,
}

impl View for PlaybackSession {
    type V = SessionView;

    closed spec fn view(&self) -> SessionView {
        SessionView {
            guild_id: self.guild_id,
            channel_id: self.channel_id,
            queue: queue_view(self.queue@),
            next_track: self.next_track,
        }
    }
}

impl PlaybackSession {
    #[verifier::type_invariant]
    spec fn tracks_are_numbered(self) -> bool {
        self@.numbered()
    }

    /// The session of a guild whose connection to `channel_id` has just been
    /// made.
    pub fn new(guild_id: GuildId, channel_id: ChannelId) -> (s: PlaybackSession)
        ensures
            s@ == SessionView::connected(guild_id, channel_id),
            s@.numbered(),
    {
        let queue: Vec<QueueEntry> = Vec::new();
        proof {
            assert(queue_view(queue@) =~= Seq::empty());
        }
        PlaybackSession { guild_id, channel_id, queue, next_track: TrackId(1) }
    }

    /// The guild the session belongs to.
    pub fn guild_id(&self) -> (g: GuildId)
        ensures
            g == self@.guild_id,
    {
        self.guild_id
    }

    /// The channel the bot is connected to.
    pub fn channel_id(&self) -> (c: ChannelId)
        ensures
            c == self@.channel_id,
    {
        self.channel_id
    }

    /// The number of entries, the one that plays included.
    pub fn len(&self) -> (n: usize)
        ensures
            n == self@.queue.len(),
    {
        self.queue.len()
    }

    /// Whether nothing plays.
    pub fn is_empty(&self) -> (r: bool)
        ensures
            r == (self@.queue.len() == 0),
    {
        self.queue.len() == 0
    }

    /// Whether the track instance `track` is in the queue, playing or
    /// waiting. No instance is in the queue twice.
    pub fn holds(&self, track: TrackId) -> (r: bool)
        ensures
            r == self@.holds(track),
            self@.numbered(),
            self@.distinct_tracks(),
    {
        proof {
            use_type_invariant(self);
            lemma_numbered_is_distinct(self@);
        }
        let mut i: usize = 0;
        while i < self.queue.len()
            invariant
                i <= self.queue.len(),
                self@.numbered(),
                self@.distinct_tracks(),
                forall|k: int| 0 <= k < i ==> (#[trigger] queue_view(self.queue@)[k]).source != track,
            decreases self.queue.len() - i,
        {
            if self.queue[i].source.0 == track.0 {
                assert(queue_view(self.queue@)[i as int].source == track);
                return true;
            }
            i = i + 1;
        }
        false
    }

    /// Records that the connection now is in `channel_id`; the queue stays.
    pub fn move_to(&mut self, channel_id: ChannelId)
        ensures
            final(self)@ == old(self)@.moved(channel_id),
            final(self)@.numbered(),
    {
        proof {
            use_type_invariant(&*self);
        }
        self.channel_id = channel_id;
    }

    /// Puts a track at the tail, as a new track instance: it gets the next
    /// number, which no entry of the queue has. A track that arrives in an
    /// empty queue is the one that plays; any other waits behind those that
    /// came before it, which stay as they are.
    pub fn enqueue(&mut self, metadata: SongMetadata, live: bool) -> (r: Enqueued)
        ensures
            final(self)@ == old(self)@.enqueue(metadata@, live),
            enqueued_of(final(self)@.queue, r),
            r.track == old(self)@.next_track,
            !old(self)@.holds(r.track),
            r.position == 0 <==> old(self)@.queue.len() == 0,
            final(self)@.queue.len() == old(self)@.queue.len() + 1,
            final(self)@.queue.take(old(self)@.queue.len() as int) == old(self)@.queue,
            final(self)@.numbered(),
            final(self)@.distinct_tracks(),
    {
        proof {
            use_type_invariant(&*self);
        }
        let ghost before = self@;
        let track = self.next_track;
        let next = if track.0 == u128::MAX {
            TrackId(0)
        } else {
            TrackId(track.0 + 1)
        };
        let mut queue: Vec<QueueEntry> = Vec::new();
        proof {
            assert(queue_view(queue@) =~= Seq::empty());
        }
        core::mem::swap(&mut self.queue, &mut queue);
        let position = queue.len();
        queue.push(QueueEntry { source: track, metadata, live });
        let count = queue.len();
        let total_duration = get_queue_duration(&queue);
        let any_live = queue_has_live(&queue);
        proof {
            assert(queue_view(queue@) =~= before.queue.push(before.entry_for(metadata@, live)));
            lemma_numbered_stays(before, metadata@, live, track, before.channel_id);
            lemma_numbered_is_distinct(before);
            lemma_numbered_is_distinct(before.enqueue(metadata@, live));
            assert(before.enqueue(metadata@, live).queue.take(before.queue.len() as int)
                =~= before.queue);
        }
        self.next_track = next;
        core::mem::swap(&mut self.queue, &mut queue);
        Enqueued { track, position, count, total_duration, live: any_live }
    }

    /// Takes the track that plays out of the queue and gives back what was
    /// known of it; the next entry, if there is one, plays. With nothing
    /// queued the session stays as it is. The track that was skipped is in
    /// the queue no more, so that a report of its end, when it comes, finds
    /// nothing to move.
    pub fn skip(&mut self) -> (r: Result<SongMetadata, SessionError>)
        ensures
            final(self)@ == old(self)@.advance(),
            match r {
                Ok(skipped) => old(self)@.queue.len() > 0 && skipped@ == old(self)@.queue[0].metadata
                    && !final(self)@.holds(old(self)@.queue[0].source),
                Err(e) => old(self)@.queue.len() == 0 && e == SessionError::NothingQueued,
            },
            final(self)@.numbered(),
            final(self)@.distinct_tracks(),
    {
        proof {
            use_type_invariant(&*self);
            lemma_numbered_is_distinct(self@);
            lemma_numbered_stays(
                self@,
                arbitrary(),
                false,
                self@.next_track,
                self@.channel_id,
            );
            lemma_numbered_is_distinct(self@.advance());
        }
        if self.queue.len() == 0 {
            return Err(SessionError::NothingQueued);
        }
        let ghost before = self@;
        let mut queue: Vec<QueueEntry> = Vec::new();
        proof {
            assert(queue_view(queue@) =~= Seq::empty());
        }
        core::mem::swap(&mut self.queue, &mut queue);
        let head = queue.remove(0);
        proof {
            assert(queue_view(queue@) =~= before.queue.drop_first());
            lemma_single_advance(before, before.queue[0].source);
        }
        core::mem::swap(&mut self.queue, &mut queue);
        Ok(head.metadata)
    }

    /// Takes note that the transport has finished `track`. The queue moves on
    /// only if `track` is still the one that plays: an end that is reported
    /// for a track that a skip has already removed changes nothing. A track
    /// that has ended while it played is in the queue no more.
    pub fn track_ended(&mut self, track: TrackId) -> (advanced: bool)
        ensures
            final(self)@ == old(self)@.track_ended(track),
            advanced == old(self)@.plays(track),
            advanced ==> !final(self)@.holds(track),
            final(self)@.numbered(),
            final(self)@.distinct_tracks(),
    {
        proof {
            use_type_invariant(&*self);
            lemma_numbered_is_distinct(self@);
            lemma_numbered_stays(self@, arbitrary(), false, track, self@.channel_id);
            lemma_numbered_is_distinct(self@.advance());
        }
        if self.queue.len() == 0 {
            return false;
        }
        if self.queue[0].source.0 != track.0 {
            return false;
        }
        let ghost before = self@;
        let mut queue: Vec<QueueEntry> = Vec::new();
        proof {
            assert(queue_view(queue@) =~= Seq::empty());
        }
        core::mem::swap(&mut self.queue, &mut queue);
        let _ = queue.remove(0);
        proof {
            assert(queue_view(queue@) =~= before.queue.drop_first());
            lemma_single_advance(before, track);
        }
        core::mem::swap(&mut self.queue, &mut queue);
        true
    }

    /// Takes note of a report about `track` that the transport sent at
    /// playback position `position`. A report at position zero was sent
    /// before the track had begun and counts for nothing; any other is the
    /// end of the track: see [`PlaybackSession::track_ended`]. Says whether
    /// the report counted.
    pub fn track_reported(&mut self, track: TrackId, position: Duration) -> (heeded: bool)
        ensures
            final(self)@ == if position@ == 0 {
                old(self)@
            } else {
                old(self)@.track_ended(track)
            },
            heeded == (position@ != 0),
            heeded && old(self)@.plays(track) ==> !final(self)@.holds(track),
            final(self)@.numbered(),
            final(self)@.distinct_tracks(),
    {
        proof {
            use_type_invariant(&*self);
            lemma_numbered_is_distinct(self@);
        }
        if position.is_zero() {
            return false;
        }
        let _ = self.track_ended(track);
        true
    }

    /// The number of entries, the summed length of those that are not live,
    /// and whether any is live.
    pub fn totals(&self) -> (r: (usize, Duration, bool))
        ensures
            r.0 == self@.queue.len(),
            r.1@ == capped(finite_total(self@.queue)),
            r.2 == has_live(self@.queue),
    {
        (self.queue.len(), get_queue_duration(&self.queue), queue_has_live(&self.queue))
    }

    /// Decides a seek of the track that plays to `position`, when the
    /// transport reports that `elapsed` of it has been played. The session
    /// itself does not change: on `Ok` the caller tells the transport to seek
    /// to the position that is handed back.
    pub fn seek(&self, position: Duration, elapsed: Duration) -> (r: Result<Duration, SeekError>)
        ensures
            r == seek_verdict(self@.playing(), position, elapsed),
    {
        if self.queue.len() == 0 {
            seek_decision(None, position, elapsed)
        } else {
            seek_decision(
                Some((self.queue[0].metadata.duration, self.queue[0].live)),
                position,
                elapsed,
            )
        }
    }

    /// Clears the queue, the track that plays included. The session stays
    /// connected to its channel.
    pub fn stop(&mut self)
        ensures
            final(self)@ == old(self)@.stop(),
            final(self)@.numbered(),
    {
        let mut cleared: Vec<QueueEntry> = Vec::new();
        proof {
            assert(queue_view(cleared@) =~= Seq::empty());
        }
        core::mem::swap(&mut self.queue, &mut cleared);
    }

    /// The track that plays, if any.
    pub fn current(&self) -> (r: Option<QueueEntry>)
        ensures
            match r {
                Some(entry) => self@.queue.len() > 0 && entry@ == self@.queue[0],
                None => self@.queue.len() == 0,
            },
    {
        if self.queue.len() == 0 {
            None
        } else {
            Some(self.queue[0].clone())
        }
    }

    /// All entries in order, the one that plays first.
    pub fn snapshot(&self) -> (r: Vec<QueueEntry>)
        ensures
            queue_view(r@) == self@.queue,
    {
        let mut out: Vec<QueueEntry> = Vec::new();
        let mut i: usize = 0;
        while i < self.queue.len()
            invariant
                i <= self.queue.len(),
                out@ == self.queue@.take(i as int),
            decreases self.queue.len() - i,
        {
            out.push(self.queue[i].clone());
            i = i + 1;
        }
        proof {
            assert(self.queue@.take(i as int) == self.queue@);
        }
        out
    }
}

/// The entries that `tracks` become when they arrive one after another in a
/// session whose next number is `next`.
pub open spec fn arrivals(tracks: Seq<(SongMetadataView, bool)>, next: TrackId) -> Seq<
    QueueEntryView,
>
    decreases tracks.len(),
{
    if tracks.len() == 0 {
        Seq::empty()
    } else {
        let before = arrivals(tracks.drop_last(), next);
        before.push(
            QueueEntryView {
                source: after_arrivals(next, (tracks.len() - 1) as nat),
                metadata: tracks.last().0,
                live: tracks.last().1,
            },
        )
    }
}

/// The next number of a session once `n` more tracks have arrived.
pub open spec fn after_arrivals(next: TrackId, n: nat) -> TrackId
    decreases n,
{
    if n == 0 {
        next
    } else {
        successor(after_arrivals(next, (n - 1) as nat))
    }
}

/// Putting tracks at the tail one after another gives the old queue
/// followed by those tracks, in the order in which they came and with the
/// numbers that the session gave them.
pub proof fn lemma_enqueue_all(s: SessionView, tracks: Seq<(SongMetadataView, bool)>)
    ensures
        s.enqueue_all(tracks).queue == s.queue + arrivals(tracks, s.next_track),
        arrivals(tracks, s.next_track).len() == tracks.len(),
        s.enqueue_all(tracks).next_track == after_arrivals(s.next_track, tracks.len()),
        s.enqueue_all(tracks).guild_id == s.guild_id,
        s.enqueue_all(tracks).channel_id == s.channel_id,
    decreases tracks.len(),
{
    if tracks.len() > 0 {
        lemma_enqueue_all(s, tracks.drop_last());
        assert(s.queue + arrivals(tracks, s.next_track) =~= (s.queue + arrivals(
            tracks.drop_last(),
            s.next_track,
        )).push(arrivals(tracks, s.next_track).last()));
    } else {
        assert(s.queue + arrivals(tracks, s.next_track) =~= s.queue);
    }
}

/// Of any run of enqueues on a session in which nothing plays: the first one
/// makes its track the one that plays, and every later one only lengthens
/// the tail. After the `k`-th enqueue the queue is one longer than before it,
/// what was queued before it has stayed in place, the new track is the last,
/// and the track that plays is still the first that arrived.
pub proof fn lemma_first_enqueue_plays(
    s: SessionView,
    tracks: Seq<(SongMetadataView, bool)>,
    k: int,
)
    requires
        s.queue.len() == 0,
        0 < k <= tracks.len(),
    ensures
        ({
            let before = s.enqueue_all(tracks.take(k - 1));
            let after = s.enqueue_all(tracks.take(k));
            &&& after == before.enqueue(tracks[k - 1].0, tracks[k - 1].1)
            &&& after.queue.len() == before.queue.len() + 1
            &&& after.queue.len() == k
            &&& after.queue.take(k - 1) == before.queue
            &&& after.queue[0] == s.entry_for(tracks[0].0, tracks[0].1)
            &&& after.queue.last().metadata == tracks[k - 1].0
            &&& after.queue.last().live == tracks[k - 1].1
        }),
    decreases k,
{
    lemma_enqueue_all(s, tracks.take(k - 1));
    lemma_enqueue_all(s, tracks.take(k));
    assert(tracks.take(k).drop_last() =~= tracks.take(k - 1));
    let before = s.enqueue_all(tracks.take(k - 1));
    let after = s.enqueue_all(tracks.take(k));
    assert(after.queue.take(k - 1) =~= before.queue);
    if k == 1 {
        assert(tracks.take(0) =~= Seq::<(SongMetadataView, bool)>::empty());
        assert(before == s);
    } else {
        lemma_first_enqueue_plays(s, tracks, k - 1);
        assert(after.queue[0] == before.queue[0]);
    }
}

/// What a skip does to the queue: of two or more entries the head leaves and
/// the second becomes the head, the others following in their order; a single
/// entry leaves an empty queue; an empty queue stays empty.
pub proof fn lemma_skip_promotes(s: SessionView)
    ensures
        s.queue.len() >= 2 ==> {
            &&& s.advance().queue.len() == s.queue.len() - 1
            &&& s.advance().queue[0] == s.queue[1]
            &&& forall|i: int|
                0 <= i < s.queue.len() - 1 ==> s.advance().queue[i] == #[trigger] s.queue[i + 1]
        },
        s.queue.len() == 1 ==> s.advance().queue.len() == 0,
        s.queue.len() == 0 ==> s.advance() == s,
        s.advance().guild_id == s.guild_id,
        s.advance().channel_id == s.channel_id,
{
}

/// A track instance moves the queue once. While it plays, a skip and the
/// transport's report of its end do the same thing; once either has happened,
/// the track is gone from the queue, and a report of its end that arrives
/// afterwards changes nothing. This holds wherever no instance is queued
/// twice.
pub proof fn lemma_single_advance(s: SessionView, track: TrackId)
    requires
        s.distinct_tracks(),
        s.plays(track),
    ensures
        s.track_ended(track) == s.advance(),
        !s.advance().holds(track),
        s.advance().track_ended(track) == s.advance(),
        s.track_ended(track).track_ended(track) == s.track_ended(track),
{
    let t = s.advance();
    assert forall|i: int| 0 <= i < t.queue.len() implies (#[trigger] t.queue[i]).source
        != track by {
        assert(t.queue[i] == s.queue[i + 1]);
    }
}

/// In every session a track instance moves the queue once: a session is
/// numbered, so no instance is queued twice, and whichever comes first of a
/// skip and the report of the track's end takes the track out for good. The
/// other, when it comes, finds another track at the head, or none, and the
/// report leaves the queue as it is.
pub proof fn lemma_one_advance_per_instance(s: SessionView, track: TrackId)
    requires
        s.numbered(),
        s.plays(track),
    ensures
        s.track_ended(track) == s.advance(),
        s.advance().numbered(),
        !s.advance().holds(track),
        s.advance().track_ended(track) == s.advance(),
        s.track_ended(track).track_ended(track) == s.track_ended(track),
{
    lemma_numbered_is_distinct(s);
    lemma_single_advance(s, track);
    lemma_numbered_stays(s, arbitrary(), false, track, s.channel_id);
}

/// The end of a track that does not play leaves the session as it is.
pub proof fn lemma_stale_end_ignored(s: SessionView, track: TrackId)
    requires
        !s.plays(track),
    ensures
        s.track_ended(track) == s,
{
}

} // verus!
