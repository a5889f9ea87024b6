use capybara::cmd::play::ResolveError;
use capybara::cmd::Play;
use capybara::embed::text_response;
use capybara::ids::{ChannelId, GuildId, TrackId};
use capybara::notice::{ErrorClass, Notice};
use capybara::notifier::on_disconnect;
use capybara::playback::{QueueEntry, SongMetadata, VoiceStateError};
use capybara::registry::{SessionRegistry, SessionState};
use capybara::session::{Enqueued, PlaybackSession};
use capybara::text::{contains, truncate_unicode};
use capybara::time::Duration;

fn queue_up(session: &mut PlaybackSession, entry: QueueEntry) -> Enqueued {
    session.enqueue(entry.metadata, entry.live)
}

fn entry(id: u128) -> QueueEntry {
    QueueEntry {
        source: TrackId(id),
        metadata: SongMetadata {
            title: "T".to_string(),
            thumbnail: "https://img/x.png".to_string(),
            duration: Duration::from_secs(60),
            url: None,
        },
        live: false,
    }
}

fn put(registry: &mut SessionRegistry, guild: GuildId, change: fn(&mut PlaybackSession)) {
    let mut s = registry.remove(guild).unwrap();
    change(&mut s);
    let _ = registry.insert(s);
}

#[test]
fn a_session_goes_from_idle_to_playing_and_back() {
    let mut r = SessionRegistry::new();
    let g = GuildId(1);
    assert_eq!(r.state(g), SessionState::Idle);
    assert!(r.get_or_create(g, ChannelId(5), false).is_err());
    assert_eq!(r.state(g), SessionState::Idle);
    assert!(r.get_or_create(g, ChannelId(5), true).is_ok());
    assert_eq!(r.state(g), SessionState::Connected);
    put(&mut r, g, |s| {
        queue_up(s, entry(1));
    });
    assert_eq!(r.state(g), SessionState::Playing);
    put(&mut r, g, |s| {
        queue_up(s, entry(2));
    });
    assert_eq!(r.state(g), SessionState::Playing);
    put(&mut r, g, |s| {
        let _ = s.skip();
    });
    assert_eq!(r.state(g), SessionState::Playing);
    put(&mut r, g, |s| {
        let _ = s.track_ended(TrackId(2));
    });
    assert_eq!(r.state(g), SessionState::Connected);
    put(&mut r, g, |s| {
        queue_up(s, entry(3));
        s.stop();
    });
    assert_eq!(r.state(g), SessionState::Connected);
    assert!(r.remove(g).is_some());
    assert_eq!(r.state(g), SessionState::Idle);
}

#[test]
fn one_guild_does_not_change_the_state_of_another() {
    let mut r = SessionRegistry::new();
    let _ = r.get_or_create(GuildId(1), ChannelId(5), true);
    let _ = r.get_or_create(GuildId(2), ChannelId(6), true);
    put(&mut r, GuildId(1), |s| {
        queue_up(s, entry(1));
    });
    assert_eq!(r.state(GuildId(1)), SessionState::Playing);
    assert_eq!(r.state(GuildId(2)), SessionState::Connected);
    assert_eq!(r.state(GuildId(3)), SessionState::Idle);
    let _ = r.remove(GuildId(1));
    assert_eq!(r.state(GuildId(2)), SessionState::Connected);
}

#[test]
fn a_dropped_connection_discards_the_session() {
    let mut r = SessionRegistry::new();
    let _ = r.get_or_create(GuildId(1), ChannelId(5), true);
    put(&mut r, GuildId(1), |s| {
        queue_up(s, entry(1));
    });
    let gone = on_disconnect(&mut r, GuildId(1)).unwrap();
    assert_eq!(gone.guild_id(), GuildId(1));
    assert_eq!(gone.len(), 1);
    assert_eq!(r.state(GuildId(1)), SessionState::Idle);
    assert!(on_disconnect(&mut r, GuildId(1)).is_none());
}

#[test]
fn failures_are_classed() {
    assert_eq!(Notice::NoSearchTerm.class(), Some(ErrorClass::UserInput));
    assert_eq!(Notice::NoTimestamp.class(), Some(ErrorClass::UserInput));
    assert_eq!(Notice::MalformedTimestamp.class(), Some(ErrorClass::UserInput));
    assert_eq!(Notice::MalformedExpression.class(), Some(ErrorClass::UserInput));
    assert_eq!(Notice::NoExpression.class(), Some(ErrorClass::UserInput));
    assert_eq!(Notice::InvalidUser.class(), Some(ErrorClass::UserInput));
    assert_eq!(Notice::InvalidCommand.class(), Some(ErrorClass::UserInput));
    assert_eq!(Notice::Voice(VoiceStateError::NotInChannel).class(), Some(ErrorClass::VoiceState));
    assert_eq!(Notice::Voice(VoiceStateError::NotInVoice).class(), Some(ErrorClass::VoiceState));
    assert_eq!(Notice::ConnectFailed.class(), Some(ErrorClass::Transport));
    assert_eq!(Notice::SeekFailed.class(), Some(ErrorClass::Transport));
    assert_eq!(Notice::PlaybackFailed.class(), Some(ErrorClass::Transport));
    assert_eq!(Notice::LeaveFailed.class(), Some(ErrorClass::Transport));
    assert_eq!(Notice::TookTooLong.class(), Some(ErrorClass::Timeout));
    assert_eq!(Notice::Left.class(), None);
    assert_eq!(Notice::Stopped.class(), None);
    assert_eq!(Notice::EndOfQueue.class(), None);
    assert_eq!(Notice::NothingToSkip.class(), None);
}

#[test]
fn only_failures_of_the_machinery_are_logged() {
    assert!(!ErrorClass::UserInput.logged());
    assert!(!ErrorClass::VoiceState.logged());
    assert!(ErrorClass::Transport.logged());
    assert!(ErrorClass::Resolve.logged());
    assert!(ErrorClass::Timeout.logged());
}

#[test]
fn a_failed_resolve_names_the_request() {
    assert_eq!(
        Play::resolve_failed("https://x/gone", ResolveError::Unreachable),
        text_response("Couldn't load https://x/gone")
    );
    assert_eq!(
        Play::resolve_failed("a song nobody wrote", ResolveError::NoResults),
        text_response("No results for a song nobody wrote")
    );
}

#[test]
fn contains_agrees_with_std() {
    let hays = ["", "a", "ab", "abab", "https://", "xhttps://x", "http://", "ααβ", "aaa"];
    let needles = ["", "a", "b", "ab", "ba", "https://", "αβ", "aaaa"];
    for h in hays {
        for n in needles {
            assert_eq!(contains(h, n), h.contains(n), "{:?} in {:?}", n, h);
        }
    }
}

#[test]
fn truncate_unicode_agrees_with_cutting_at_the_nth_character() {
    let texts = ["", "a", "hello", "héllo wörld", "🍊🍊🍊", "日本語のタイトル"];
    for text in texts {
        for max in 0..12usize {
            let expected = match text.char_indices().nth(max) {
                None => text.to_string(),
                Some((i, _)) => format!("{}...", &text[..i]),
            };
            assert_eq!(truncate_unicode(text, max), expected);
        }
    }
}
