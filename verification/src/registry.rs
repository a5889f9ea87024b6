//! The sessions of all guilds: at most one for each.

use crate::ids::{ChannelId, GuildId};
use crate::session::{PlaybackSession, SessionView};
use std::collections::HashMap;
use vstd::prelude::*;

verus! {

/// The voice transport could not connect to the channel.
#[derive(Clone, Copy, Debug, PartialEq, Eq, Structural)]
pub struct VoiceConnectError;

/// Whether `sessions` holds a session of `guild` that is connected in
/// `target`, so that no new connection is needed.
pub open spec fn reusable(
    sessions: Map<GuildId, SessionView>,
    guild: GuildId,
    target: ChannelId,
) -> bool {
    sessions.dom().contains(guild) && sessions[guild].channel_id == target
}

/// The sessions after a command has asked for the session of `guild` in
/// `target`, where `connected` says whether the transport could connect when
/// that was needed. A session that is already in `target` is kept; a session
/// in another channel moves there with its queue; a guild without a session
/// gets an empty one. Where the transport fails nothing changes.
pub open spec fn after_get_or_create(
    sessions: Map<GuildId, SessionView>,
    guild: GuildId,
    target: ChannelId,
    connected: bool,
) -> Map<GuildId, SessionView> {
    if reusable(sessions, guild, target) || !connected {
        sessions
    } else if sessions.dom().contains(guild) {
        sessions.insert(guild, sessions[guild].moved(target))
    } else {
        sessions.insert(guild, SessionView::connected(guild, target))
    }
}

/// Where a guild stands in the life of its session.
#[derive(Clone, Copy, Debug, PartialEq, Eq, Structural)]
pub enum SessionState {
    /// The guild has no session.
    Idle,
    /// The guild has a session, and nothing plays.
    Connected,
    /// The guild has a session, and the head of its queue plays.
    Playing,
}

/// Where `guild` stands, given the sessions of all guilds.
pub open spec fn state_of(sessions: Map<GuildId, SessionView>, guild: GuildId) -> SessionState {
    if !sessions.dom().contains(guild) {
        SessionState::Idle
    } else if sessions[guild].queue.len() == 0 {
        SessionState::Connected
    } else {
        SessionState::Playing
    }
}

/// The sessions of all guilds, each filed under the number of its guild.
#[derive(Debug)]
pub struct SessionRegistry {
    sessions: HashMap<u64, PlaybackSession>,
}

impl View for SessionRegistry {
    type V = Map<GuildId, SessionView>;

    closed spec fn view(&self) -> Map<GuildId, SessionView> {
        sessions_view(self.sessions@)
    }
}

spec fn sessions_view(sessions: Map<u64, PlaybackSession>) -> Map<GuildId, SessionView> {
    Map::new(|g: GuildId| sessions.contains_key(g.0), |g: GuildId| sessions[g.0]@)
}

spec fn filed_by_guild(sessions: Map<u64, PlaybackSession>) -> bool {
    forall|k: u64| #[trigger] sessions.contains_key(k) ==> sessions[k]@.guild_id == GuildId(k)
}

impl SessionRegistry {
    #[verifier::type_invariant]
    spec fn every_session_under_its_guild(self) -> bool {
        filed_by_guild(self.sessions@)
    }

    /// A registry without sessions.
    pub fn new() -> (r: SessionRegistry)
        ensures
            r@ == Map::<GuildId, SessionView>::empty(),
    {
        let r = SessionRegistry { sessions: HashMap::new() };
        proof {
            assert(r@ =~= Map::<GuildId, SessionView>::empty());
        }
        r
    }

    /// The session of `guild`, if it has one. Nothing is created.
    pub fn get(&self, guild: GuildId) -> (r: Option<&PlaybackSession>)
        ensures
            match r {
                Some(s) => self@.dom().contains(guild) && s@ == self@[guild] && s@.guild_id
                    == guild,
                None => !self@.dom().contains(guild),
            },
    {
        broadcast use vstd::std_specs::hash::group_hash_axioms;

        proof {
            use_type_invariant(self);
        }
        self.sessions.get(&guild.0)
    }

    /// Where `guild` stands: without a session, connected with nothing to
    /// play, or playing.
    pub fn state(&self, guild: GuildId) -> (r: SessionState)
        ensures
            r == state_of(self@, guild),
    {
        match self.get(guild) {
            None => SessionState::Idle,
            Some(s) => if s.is_empty() {
                SessionState::Connected
            } else {
                SessionState::Playing
            },
        }
    }

    /// Whether a command that wants the session of `guild` in `target` has to
    /// ask the transport for a connection first.
    pub fn needs_connection(&self, guild: GuildId, target: ChannelId) -> (r: bool)
        ensures
            r == !reusable(self@, guild, target),
    {
        match self.get(guild) {
            Some(s) => s.channel_id().0 != target.0,
            None => true,
        }
    }

    /// Discards the session of `guild` and hands it back, so that its
    /// connection can be torn down. Removing what is not there is no error:
    /// the registry then stays as it is.
    pub fn remove(&mut self, guild: GuildId) -> (r: Option<PlaybackSession>)
        ensures
            final(self)@ == old(self)@.remove(guild),
            match r {
                Some(s) => old(self)@.dom().contains(guild) && s@ == old(self)@[guild]
                    && s@.guild_id == guild,
                None => !old(self)@.dom().contains(guild),
            },
    {
        broadcast use vstd::std_specs::hash::group_hash_axioms;

        proof {
            use_type_invariant(&*self);
        }
        let mut sessions: HashMap<u64, PlaybackSession> = HashMap::new();
        core::mem::swap(&mut self.sessions, &mut sessions);
        let r = sessions.remove(&guild.0);
        core::mem::swap(&mut self.sessions, &mut sessions);
        proof {
            assert(self@ =~= old(self)@.remove(guild));
        }
        r
    }

    /// Files `session` under its guild, in place of the session that the
    /// guild had, which is handed back.
    pub fn insert(&mut self, session: PlaybackSession) -> (r: Option<PlaybackSession>)
        ensures
            final(self)@ == old(self)@.insert(session@.guild_id, session@),
            match r {
                Some(s) => old(self)@.dom().contains(session@.guild_id) && s@ == old(self)@[session@.guild_id],
                None => !old(self)@.dom().contains(session@.guild_id),
            },
    {
        broadcast use vstd::std_specs::hash::group_hash_axioms;

        proof {
            use_type_invariant(&*self);
        }
        let guild = session.guild_id();
        let mut sessions: HashMap<u64, PlaybackSession> = HashMap::new();
        core::mem::swap(&mut self.sessions, &mut sessions);
        let r = sessions.insert(guild.0, session);
        core::mem::swap(&mut self.sessions, &mut sessions);
        proof {
            assert(self@ =~= old(self)@.insert(guild, session@));
        }
        r
    }

    /// Makes sure that `guild` has a session connected in `target`, and hands
    /// it out: see [`after_get_or_create`]. `connected` is what the transport
    /// answered when it was asked to connect to `target`; it is not looked at
    /// when [`SessionRegistry::needs_connection`] is false. Fails exactly
    /// when a connection was needed and could not be made.
    pub fn get_or_create(&mut self, guild: GuildId, target: ChannelId, connected: bool) -> (r:
        Result<&PlaybackSession, VoiceConnectError>)
        ensures
            final(self)@ == after_get_or_create(old(self)@, guild, target, connected),
            r is Ok <==> reusable(old(self)@, guild, target) || connected,
            r is Ok ==> reusable(final(self)@, guild, target) && r->Ok_0@ == final(self)@[guild],
    {
        if self.needs_connection(guild, target) {
            if !connected {
                return Err(VoiceConnectError);
            }
            match self.remove(guild) {
                Some(mut s) => {
                    s.move_to(target);
                    let _ = self.insert(s);
                },
                None => {
                    let _ = self.insert(PlaybackSession::new(guild, target));
                },
            }
            proof {
                assert(self@ =~= after_get_or_create(old(self)@, guild, target, connected));
            }
        }
        match self.get(guild) {
            Some(s) => Ok(s),
            None => Err(VoiceConnectError),
        }
    }
}

/// The life of a session. A guild without one is idle; the connection that a
/// join or a play makes leaves it connected with nothing to play; the first
/// enqueue makes it play, and it plays for as long as the queue holds an
/// entry; once the queue has drained, or has been cleared, it is connected
/// again; and when it leaves it is idle. What happens in one guild changes
/// the state of no other.
pub proof fn lemma_lifecycle(
    sessions: Map<GuildId, SessionView>,
    guild: GuildId,
    other: GuildId,
    target: ChannelId,
    metadata: crate::playback::SongMetadataView,
    live: bool,
)
    requires
        other != guild,
    ensures
        state_of(sessions, guild) == SessionState::Idle ==> state_of(
            after_get_or_create(sessions, guild, target, true),
            guild,
        ) == SessionState::Connected,
        state_of(sessions, guild) == state_of(
            after_get_or_create(sessions, guild, target, false),
            guild,
        ),
        sessions.dom().contains(guild) ==> {
            let s = sessions[guild];
            &&& state_of(sessions.insert(guild, s.enqueue(metadata, live)), guild) == SessionState::Playing
            &&& state_of(sessions.insert(guild, s.stop()), guild) == SessionState::Connected
            &&& state_of(sessions.insert(guild, s.advance()), guild) == if s.queue.len() <= 1 {
                SessionState::Connected
            } else {
                SessionState::Playing
            }
        },
        state_of(sessions.remove(guild), guild) == SessionState::Idle,
        state_of(after_get_or_create(sessions, guild, target, true), other) == state_of(
            sessions,
            other,
        ),
        state_of(sessions.remove(guild), other) == state_of(sessions, other),
        sessions.dom().contains(guild) ==> state_of(
            sessions.insert(guild, sessions[guild].enqueue(metadata, live)),
            other,
        ) == state_of(sessions, other),
{
}

} // verus!
