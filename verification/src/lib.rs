//! Decision logic of a voice-channel music bot: per-guild playback sessions,
//! command routing, and the text of every reply.

pub mod cmd;
pub mod commands;
pub mod config;
pub mod constants;
pub mod embed;
pub mod ids;
pub mod notice;
pub mod notifier;
pub mod options;
pub mod playback;
pub mod registry;
pub mod session;
pub mod text;
pub mod time;
