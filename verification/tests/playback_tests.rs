use capybara::constants::{placeholder_img, ErrorCodes, EMBED_COLOUR};
use capybara::ids::{ChannelId, GuildId, TrackId};
use capybara::playback::{
    format_duration_live, get_queue_duration, get_queue_length_and_duration, get_source,
    is_live_title, queue_has_live, AuxMetadata, DurationFormat, QueueEntry, SongMetadata,
    SourceRequest, VOIPData, VoiceStateError,
};
use capybara::time::Duration;

fn metadata(title: &str, secs: u64) -> SongMetadata {
    SongMetadata {
        title: title.to_string(),
        thumbnail: "https://img/x.png".to_string(),
        duration: Duration::from_secs(secs),
        url: Some("https://x/track".to_string()),
    }
}

fn entry(id: u128, title: &str, secs: u64, live: bool) -> QueueEntry {
    QueueEntry { source: TrackId(id), metadata: metadata(title, secs), live }
}

#[test]
fn placeholder_img_is_the_default_picture() {
    assert_eq!(placeholder_img(), "https://karei.dev/files/capybara-default.jpg");
}

#[test]
fn embed_colour_is_the_brand_pink() {
    assert_eq!(EMBED_COLOUR, (232 << 16) | (12 << 8) | 116);
}

#[test]
fn config_file_error_exits_with_ten() {
    assert_eq!(ErrorCodes::ConfigFileError.code(), 10);
}

#[test]
fn from_source_keeps_what_the_resolver_reported() {
    let aux = AuxMetadata {
        title: Some("Song".to_string()),
        thumbnail: Some("https://img/song.png".to_string()),
        duration: Some(Duration::from_secs(200)),
        source_url: Some("https://x/song".to_string()),
    };
    let m = SongMetadata::from_source(Some(aux));
    assert_eq!(m.title, "Song");
    assert_eq!(m.thumbnail, "https://img/song.png");
    assert_eq!(m.duration, Duration::from_secs(200));
    assert_eq!(m.url, Some("https://x/song".to_string()));
}

#[test]
fn from_source_fills_in_what_is_missing() {
    let aux = AuxMetadata { title: None, thumbnail: None, duration: None, source_url: None };
    let m = SongMetadata::from_source(Some(aux));
    assert_eq!(m.title, "N/A");
    assert_eq!(m.thumbnail, "https://karei.dev/files/capybara-default.jpg");
    assert_eq!(m.duration, Duration::zero());
    assert_eq!(m.url, None);
}

#[test]
fn from_source_after_a_failed_resolve_is_all_defaults() {
    let m = SongMetadata::from_source(None);
    assert_eq!(m.title, "N/A");
    assert_eq!(m.thumbnail, placeholder_img());
    assert_eq!(m.duration, Duration::zero());
    assert_eq!(m.url, None);
}

#[test]
fn from_source_mixes_reported_and_default_parts() {
    let aux = AuxMetadata {
        title: Some("Only a title".to_string()),
        thumbnail: None,
        duration: Some(Duration::from_secs(1)),
        source_url: None,
    };
    let m = SongMetadata::from_source(Some(aux));
    assert_eq!(m.title, "Only a title");
    assert_eq!(m.thumbnail, placeholder_img());
    assert_eq!(m.duration, Duration::from_secs(1));
    assert_eq!(m.url, None);
}

#[test]
fn from_handle_copies_the_metadata() {
    let e = entry(1, "A", 180, false);
    assert_eq!(SongMetadata::from_handle(&e), metadata("A", 180));
}

#[test]
fn metadata_clone_is_equal() {
    let m = metadata("A", 180);
    assert_eq!(m.clone(), m);
    let e = entry(9, "B", 1, true);
    assert_eq!(e.clone(), e);
}

#[test]
fn voip_data_needs_a_guild() {
    assert_eq!(
        VOIPData::from(None, Some(Some(ChannelId(5)))),
        Err(VoiceStateError::GuildUnknown)
    );
    assert_eq!(VOIPData::from(Some(GuildId(1)), None), Err(VoiceStateError::GuildUnknown));
}

#[test]
fn voip_data_needs_a_voice_channel() {
    assert_eq!(VOIPData::from(Some(GuildId(1)), Some(None)), Err(VoiceStateError::NotInVoice));
}

#[test]
fn voip_data_of_a_member_in_voice() {
    assert_eq!(
        VOIPData::from(Some(GuildId(1)), Some(Some(ChannelId(5)))),
        Ok(VOIPData { channel_id: ChannelId(5), guild_id: GuildId(1) })
    );
}

#[test]
fn voice_state_error_messages() {
    assert_eq!(VoiceStateError::GuildUnknown.message(), "Error getting guild information");
    assert_eq!(VoiceStateError::NotInVoice.message(), "Join a voice channel first");
    assert_eq!(VoiceStateError::NotInChannel.message(), "You're not in the voice channel");
    assert_eq!(VoiceStateError::NotConnected.message(), "Not in a voice channel");
}

#[test]
fn compare_to_call_wants_the_same_channel() {
    let v = VOIPData { channel_id: ChannelId(5), guild_id: GuildId(1) };
    assert!(v.compare_to_call(Some(ChannelId(5))));
    assert!(!v.compare_to_call(Some(ChannelId(6))));
    assert!(!v.compare_to_call(None));
}

#[test]
fn compare_to_call_never_matches_a_missing_channel() {
    let v = VOIPData { channel_id: ChannelId(0), guild_id: GuildId(1) };
    assert!(!v.compare_to_call(None));
}

#[test]
fn guard_tells_the_three_cases_apart() {
    let v = VOIPData { channel_id: ChannelId(5), guild_id: GuildId(1) };
    assert_eq!(v.guard(None), Err(VoiceStateError::NotConnected));
    assert_eq!(v.guard(Some(Some(ChannelId(6)))), Err(VoiceStateError::NotInChannel));
    assert_eq!(v.guard(Some(None)), Err(VoiceStateError::NotInChannel));
    assert_eq!(v.guard(Some(Some(ChannelId(5)))), Ok(()));
}

#[test]
fn get_source_takes_an_address_as_an_address() {
    assert_eq!(
        get_source("https://x/track".to_string()),
        SourceRequest::Url("https://x/track".to_string())
    );
    assert_eq!(
        get_source("play https://x/track now".to_string()),
        SourceRequest::Url("play https://x/track now".to_string())
    );
}

#[test]
fn get_source_takes_anything_else_as_a_search() {
    assert_eq!(
        get_source("never gonna give you up".to_string()),
        SourceRequest::Search("never gonna give you up".to_string())
    );
    assert_eq!(
        get_source("http://x/track".to_string()),
        SourceRequest::Search("http://x/track".to_string())
    );
    assert_eq!(get_source(String::new()), SourceRequest::Search(String::new()));
}

#[test]
fn live_titles_end_in_a_date_and_a_time() {
    assert!(is_live_title("Lofi hip hop radio 2024-01-05 12:30"));
    assert!(is_live_title("x2024-01-05 12:30"));
    assert!(is_live_title("News 1999-12-31 9:5"));
    assert!(is_live_title("News 1999-12-31_9:05") == false);
    assert!(is_live_title("Stream 2024-01-05\t23:59"));
}

#[test]
fn other_titles_are_not_live() {
    assert!(!is_live_title("Never Gonna Give You Up"));
    assert!(!is_live_title("2024-01-05 12:30"));
    assert!(!is_live_title("Recorded 2024-01-05 12:30 (remaster)"));
    assert!(!is_live_title("Stream 2024-01-05T12:30"));
    assert!(!is_live_title("Stream 24-01-05 12:30"));
    assert!(!is_live_title("Stream 2024-01-05 12:"));
    assert!(!is_live_title(""));
}

#[test]
fn format_duration_live_of_a_recorded_track_is_its_length() {
    let f = format_duration_live(Duration::from_secs(185), "Never Gonna Give You Up");
    assert_eq!(f, DurationFormat::Normal("3m 5s".to_string()));
    assert!(!f.is_live());
    assert_eq!(f.to_string(), "3m 5s");
}

#[test]
fn format_duration_live_of_a_broadcast_ignores_the_length() {
    let f = format_duration_live(Duration::from_secs(185), "Lofi radio 2024-01-05 12:30");
    assert_eq!(f, DurationFormat::Live());
    assert!(f.is_live());
    assert_eq!(f.to_string(), "LIVE");
}

#[test]
fn duration_format_of_plain_values() {
    assert_eq!(DurationFormat::of(Duration::zero(), false), DurationFormat::Normal("n/a".to_string()));
    assert_eq!(DurationFormat::of(Duration::zero(), true), DurationFormat::Live());
    assert_eq!(
        DurationFormat::of(Duration::from_secs(3600), false),
        DurationFormat::Normal("1h".to_string())
    );
}

#[test]
fn queue_entry_new_reads_liveness_from_the_title() {
    let live = QueueEntry::new(TrackId(1), metadata("Radio 2024-01-05 12:30", 0));
    assert!(live.live);
    assert_eq!(live.source, TrackId(1));
    assert_eq!(live.metadata, metadata("Radio 2024-01-05 12:30", 0));
    assert_eq!(live.duration_format(), DurationFormat::Live());
    let recorded = QueueEntry::new(TrackId(2), metadata("Song", 200));
    assert!(!recorded.live);
    assert_eq!(recorded.duration_format(), DurationFormat::Normal("3m 20s".to_string()));
}

#[test]
fn queue_duration_adds_up_the_finite_entries() {
    let queue = vec![entry(1, "A", 180, false), entry(2, "B", 240, false)];
    assert_eq!(get_queue_duration(&queue), Duration::from_secs(420));
    assert_eq!(get_queue_length_and_duration(&queue), (2, Duration::from_secs(420)));
    assert!(!queue_has_live(&queue));
}

#[test]
fn queue_duration_of_an_empty_queue_is_zero() {
    let queue: Vec<QueueEntry> = Vec::new();
    assert_eq!(get_queue_duration(&queue), Duration::zero());
    assert_eq!(get_queue_length_and_duration(&queue), (0, Duration::zero()));
    assert!(!queue_has_live(&queue));
}

#[test]
fn live_entries_count_for_the_flag_not_for_the_time() {
    let queue = vec![entry(1, "A", 180, false), entry(2, "Radio", 999, true), entry(3, "C", 20, false)];
    assert_eq!(get_queue_duration(&queue), Duration::from_secs(200));
    assert_eq!(get_queue_length_and_duration(&queue).0, 3);
    assert!(queue_has_live(&queue));
}

#[test]
fn queue_duration_saturates() {
    let mut huge = entry(1, "A", 0, false);
    huge.metadata.duration = Duration::from_nanos(u128::MAX);
    let queue = vec![huge, entry(2, "B", 240, false)];
    assert_eq!(get_queue_duration(&queue), Duration::from_nanos(u128::MAX));
}

#[test]
fn a_duration_format_turns_into_its_liveness() {
    assert!(bool::from(DurationFormat::Live()));
    assert!(!bool::from(DurationFormat::Normal("3m".to_string())));
    assert!(bool::from(&DurationFormat::Live()));
    assert!(!bool::from(&DurationFormat::Normal(String::new())));
}
