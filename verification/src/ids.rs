//! Identifiers handed out by the chat platform and the voice transport.

use vstd::prelude::*;

verus! {

/// A chat server: the unit that owns one playback session.
#[derive(Clone, Copy, Debug, PartialEq, Eq, Structural)]
pub struct GuildId(pub u64);

/// A channel of a guild.
#[derive(Clone, Copy, Debug, PartialEq, Eq, Structural)]
pub struct ChannelId(pub u64);

/// A user of the chat platform.
#[derive(Clone, Copy, Debug, PartialEq, Eq, Structural)]
pub struct UserId(pub u64);

/// The number of a track instance: of one arrival in the queue of a session.
/// The session gives the numbers out, one after another, so that no two
/// entries of its queue have the same.
#[derive(Clone, Copy, Debug, PartialEq, Eq, Structural)]
pub struct TrackId(pub u128);

} // verus!
