use capybara::commands::{
    check_connect, check_control, check_view, command_list, handle_commands, register_commands,
    route, CommandKind, DispatchEvent, Dispatcher, HandlerOutcome, VoiceScene,
    COMMAND_TIMEOUT_SECS,
};
use capybara::embed::{text_response, Embed, Reply};
use capybara::ids::{ChannelId, GuildId};
use capybara::notice::Notice;
use capybara::options::{find_option, CommandOptionType, OptionValue, ResolvedOption};
use capybara::playback::{VOIPData, VoiceStateError};
use capybara::time::Duration;

fn scene(invoker: Option<u64>, call: Option<Option<u64>>) -> VoiceScene {
    VoiceScene {
        guild_id: Some(GuildId(1)),
        voice_channel: Some(invoker.map(ChannelId)),
        voice_client: true,
        call_channel: call.map(|c| c.map(ChannelId)),
    }
}

#[test]
fn route_finds_every_command_by_its_name() {
    assert_eq!(route("join"), Ok(CommandKind::Join));
    assert_eq!(route("leave"), Ok(CommandKind::Leave));
    assert_eq!(route("play"), Ok(CommandKind::Play));
    assert_eq!(route("seek"), Ok(CommandKind::Seek));
    assert_eq!(route("skip"), Ok(CommandKind::Skip));
    assert_eq!(route("queue"), Ok(CommandKind::Queue));
    assert_eq!(route("stop"), Ok(CommandKind::Stop));
    assert_eq!(route("capybara"), Ok(CommandKind::Capybara));
    assert_eq!(route("me"), Ok(CommandKind::Me));
    assert_eq!(route("info"), Ok(CommandKind::Info));
    assert_eq!(route("eval"), Ok(CommandKind::Eval));
    assert_eq!(route("pause"), Ok(CommandKind::Pause));
    assert_eq!(route("resume"), Ok(CommandKind::Resume));
}

#[test]
fn route_knows_no_other_name() {
    assert_eq!(route("status"), Err(Notice::InvalidCommand));
    assert_eq!(route("Play"), Err(Notice::InvalidCommand));
    assert_eq!(route("play "), Err(Notice::InvalidCommand));
    assert_eq!(route(""), Err(Notice::InvalidCommand));
    assert_eq!(route("dance"), Err(Notice::InvalidCommand));
}

#[test]
fn route_and_name_agree() {
    let kinds = [
        CommandKind::Join,
        CommandKind::Leave,
        CommandKind::Play,
        CommandKind::Seek,
        CommandKind::Skip,
        CommandKind::Queue,
        CommandKind::Stop,
        CommandKind::Capybara,
        CommandKind::Me,
        CommandKind::Info,
        CommandKind::Eval,
        CommandKind::Pause,
        CommandKind::Resume,
    ];
    for k in kinds {
        assert_eq!(route(k.name()), Ok(k));
        assert_eq!(k.info().name, k.name());
    }
}

#[test]
fn command_list_declares_thirteen_commands_in_order() {
    let list = command_list();
    let names: Vec<&str> = list.iter().map(|c| c.name.as_str()).collect();
    assert_eq!(
        names,
        vec![
            "join", "leave", "play", "capybara", "seek", "skip", "queue", "me", "info", "stop",
            "eval", "pause", "resume"
        ]
    );
}

#[test]
fn command_list_carries_descriptions_and_options() {
    let list = command_list();
    assert_eq!(list[0].description, "Join current voice channel");
    assert_eq!(list[0].option, None);
    assert_eq!(list[1].description, "Leave voice channel");
    assert_eq!(list[2].description, "Play a YouTube video or any music/video file");
    let play = list[2].option.as_ref().unwrap();
    assert_eq!(play.kind, CommandOptionType::Text);
    assert_eq!(play.name, "search");
    assert_eq!(play.description, "Search term or a link to a Youtube video or a file");
    assert!(play.required);
    assert_eq!(list[3].description, "Post today's capybara gif");
    let seek = list[4].option.as_ref().unwrap();
    assert_eq!(list[4].description, "Seek the currently playing song");
    assert_eq!(seek.kind, CommandOptionType::Number);
    assert_eq!(seek.name, "seconds");
    assert_eq!(seek.description, "Jump to this point in the audio");
    assert!(seek.required);
    assert_eq!(list[5].description, "Skip the currently playing song");
    assert_eq!(list[6].description, "View currently queued songs");
    assert_eq!(list[7].description, "🍊");
    let info = list[8].option.as_ref().unwrap();
    assert_eq!(list[8].description, "View info on your own or someone else's Discord user");
    assert_eq!(info.kind, CommandOptionType::User);
    assert_eq!(info.name, "user");
    assert_eq!(info.description, "User you want to view info on, defaults your own user");
    assert!(!info.required);
    assert_eq!(list[9].description, "Stop music and clear the queue");
    let eval = list[10].option.as_ref().unwrap();
    assert_eq!(list[10].description, "Evaluate an expression");
    assert_eq!(eval.kind, CommandOptionType::Text);
    assert_eq!(eval.name, "expression");
    assert_eq!(
        eval.description,
        "Expression to evaluate (use \"help\" to get a cheatsheet of available functions)"
    );
    assert!(eval.required);
    assert_eq!(list[11].description, "Pause the currently playing song");
    assert_eq!(list[12].description, "Resume the currently paused song");
}

#[test]
fn register_commands_lists_the_names_for_a_guild() {
    let names = vec!["join".to_string(), "leave".to_string()];
    assert_eq!(
        register_commands(Some(GuildId(42)), &names),
        "Added commands for Guild(42):\njoin\nleave\n"
    );
}

#[test]
fn register_commands_lists_the_names_for_everywhere() {
    let names = vec!["play".to_string()];
    assert_eq!(register_commands(None, &names), "Added global commands:\nplay\n");
    assert_eq!(register_commands(None, &Vec::new()), "Added global commands:\n");
}

#[test]
fn the_timeout_is_ten_seconds() {
    assert_eq!(COMMAND_TIMEOUT_SECS, 10);
}

#[test]
fn a_completed_handler_is_only_recorded() {
    let v = handle_commands(HandlerOutcome::Completed, "ann#0001", "play");
    assert_eq!(v.overwrite, None);
    assert!(!v.failure);
    assert_eq!(v.audit, "ann#0001 ran command play");
}

#[test]
fn a_failed_handler_is_overwritten() {
    let v = handle_commands(HandlerOutcome::Failed, "ann#0001", "play");
    assert_eq!(v.overwrite, Some(Notice::ProcessingFailed));
    assert_eq!(v.overwrite.unwrap().message(), "Error processing command");
    assert!(v.failure);
    assert_eq!(v.audit, "ann#0001 failed running command play");
}

#[test]
fn a_slow_handler_is_overwritten_with_took_too_long() {
    let v = handle_commands(HandlerOutcome::TimedOut, "bob", "seek");
    assert_eq!(v.overwrite, Some(Notice::TookTooLong));
    assert_eq!(v.overwrite.unwrap().message(), "Took too long processing command");
    assert!(v.failure);
    assert_eq!(v.audit, "bob failed running command seek");
}

#[test]
fn the_timeout_reply_is_written_exactly_once() {
    let mut d = Dispatcher::new();
    assert!(!d.is_closed());
    let mut overwrites = Vec::new();
    let events = [
        DispatchEvent::TimerExpired,
        DispatchEvent::Finished { ok: true },
        DispatchEvent::Finished { ok: false },
        DispatchEvent::TimerExpired,
    ];
    for e in events {
        if let Some(outcome) = d.on_event(e) {
            let v = handle_commands(outcome, "ann", "play");
            if let Some(n) = v.overwrite {
                overwrites.push(n.message());
            }
        }
        assert!(d.is_closed());
    }
    assert_eq!(overwrites, vec!["Took too long processing command".to_string()]);
}

#[test]
fn a_handler_that_finishes_in_time_closes_the_invocation() {
    let mut d = Dispatcher::new();
    assert_eq!(d.on_event(DispatchEvent::Finished { ok: true }), Some(HandlerOutcome::Completed));
    assert_eq!(d.on_event(DispatchEvent::TimerExpired), None);
    let mut d = Dispatcher::new();
    assert_eq!(d.on_event(DispatchEvent::Finished { ok: false }), Some(HandlerOutcome::Failed));
    assert_eq!(d.on_event(DispatchEvent::Finished { ok: false }), None);
}

#[test]
fn check_control_passes_in_the_bots_channel() {
    assert_eq!(
        check_control(&scene(Some(5), Some(Some(5)))),
        Ok(VOIPData { channel_id: ChannelId(5), guild_id: GuildId(1) })
    );
}

#[test]
fn check_control_refuses_another_channel() {
    assert_eq!(
        check_control(&scene(Some(5), Some(Some(6)))),
        Err(Notice::Voice(VoiceStateError::NotInChannel))
    );
    assert_eq!(
        check_control(&scene(Some(5), Some(None))),
        Err(Notice::Voice(VoiceStateError::NotInChannel))
    );
}

#[test]
fn check_control_reports_what_is_missing_in_order() {
    let mut s = scene(None, None);
    s.voice_client = false;
    assert_eq!(check_control(&s), Err(Notice::Voice(VoiceStateError::NotInVoice)));
    s.guild_id = None;
    assert_eq!(check_control(&s), Err(Notice::Voice(VoiceStateError::GuildUnknown)));
    let mut s = scene(Some(5), None);
    s.voice_client = false;
    assert_eq!(check_control(&s), Err(Notice::NoVoiceClient));
    assert_eq!(
        check_control(&scene(Some(5), None)),
        Err(Notice::Voice(VoiceStateError::NotConnected))
    );
    let mut s = scene(Some(5), Some(Some(5)));
    s.voice_channel = None;
    assert_eq!(check_control(&s), Err(Notice::Voice(VoiceStateError::GuildUnknown)));
}

#[test]
fn check_view_does_not_ask_for_the_same_channel() {
    let v = VOIPData { channel_id: ChannelId(5), guild_id: GuildId(1) };
    assert_eq!(check_view(&scene(Some(5), Some(Some(6)))), Ok(v));
    assert_eq!(check_view(&scene(Some(5), Some(None))), Ok(v));
    assert_eq!(
        check_view(&scene(Some(5), None)),
        Err(Notice::Voice(VoiceStateError::NotConnected))
    );
    assert_eq!(check_view(&scene(None, Some(Some(6)))), Err(Notice::Voice(VoiceStateError::NotInVoice)));
    let mut s = scene(Some(5), Some(Some(5)));
    s.voice_client = false;
    assert_eq!(check_view(&s), Err(Notice::NoVoiceClient));
}

#[test]
fn check_connect_needs_the_invoker_in_voice() {
    let v = VOIPData { channel_id: ChannelId(5), guild_id: GuildId(1) };
    assert_eq!(check_connect(&scene(Some(5), None)), Ok(v));
    assert_eq!(check_connect(&scene(Some(5), Some(Some(9)))), Ok(v));
    assert_eq!(check_connect(&scene(None, None)), Err(Notice::Voice(VoiceStateError::NotInVoice)));
    let mut s = scene(Some(5), None);
    s.voice_client = false;
    assert_eq!(check_connect(&s), Err(Notice::NoVoiceClient));
}

#[test]
fn an_unknown_name_is_answered_as_invalid() {
    let answer = route("dance").unwrap_err();
    assert_eq!(answer, Notice::InvalidCommand);
    assert_eq!(answer.reply(), text_response("Invalid command"));
}

#[test]
fn notices_have_their_lines() {
    assert_eq!(Notice::InvalidCommand.message(), "Invalid command");
    assert_eq!(Notice::NoSearchTerm.message(), "No search term or URL in request");
    assert_eq!(Notice::NoVoiceClient.message(), "Error getting voice client");
    assert_eq!(Notice::ConnectFailed.message(), "Not in a voice channel");
    assert_eq!(Notice::PlaybackFailed.message(), "Error playing song");
    assert_eq!(Notice::NothingPlaying.message(), "Nothing playing");
    assert_eq!(Notice::SeekFailed.message(), "Unknown error seeking");
    assert_eq!(Notice::MalformedTimestamp.message(), "Malformed timestamp provided");
    assert_eq!(Notice::NoTimestamp.message(), "No timestamp in request");
    assert_eq!(Notice::NothingToSkip.message(), "Nothing to skip");
    assert_eq!(Notice::QueueEmpty.message(), "Queue is empty");
    assert_eq!(Notice::NothingPaused.message(), "Nothing is paused");
    assert_eq!(Notice::ResumeFailed.message(), "Could not resume");
    assert_eq!(Notice::NothingToPause.message(), "Nothing is playing");
    assert_eq!(Notice::PauseFailed.message(), "Could not pause");
    assert_eq!(Notice::JoinFailed.message(), "Couldn't join channel");
    assert_eq!(Notice::LeaveFailed.message(), "Error leaving channel");
    assert_eq!(Notice::Left.message(), "Left channel");
    assert_eq!(Notice::Stopped.message(), "Stopped playback and cleared the queue");
    assert_eq!(Notice::MalformedExpression.message(), "Malformed expression provided");
    assert_eq!(Notice::NoExpression.message(), "No expression in request");
    assert_eq!(Notice::UnsupportedExpression.message(), "Unsupported function in expression");
    assert_eq!(Notice::ExpressionTooLong.message(), "Expression is too long");
    assert_eq!(Notice::InvalidUser.message(), "Invalid user provided");
    assert_eq!(Notice::UserFetchFailed.message(), "Couldn't fetch user");
    assert_eq!(Notice::NoAvatar.message(), "🍊");
    assert_eq!(Notice::EndOfQueue.message(), "End of queue");
    assert_eq!(
        Notice::Voice(VoiceStateError::NotInChannel).message(),
        "You're not in the voice channel"
    );
}

#[test]
fn a_notice_replies_with_its_line_as_the_title() {
    let r = Notice::Stopped.reply();
    assert_eq!(r, text_response("Stopped playback and cleared the queue"));
}

#[test]
fn text_response_is_a_title_in_the_brand_colour() {
    let r = text_response("Hello");
    let mut embed = Embed::new();
    embed.title = Some("Hello".to_string());
    assert_eq!(r, Reply { embed, button: None });
    assert_eq!(r.embed.colour, 0xE80C74);
    assert!(r.embed.fields.is_empty());
    assert_eq!(r.embed.description, None);
    assert_eq!(r.embed.footer, None);
}

#[test]
fn push_field_appends() {
    let mut embed = Embed::new();
    embed.push_field("A", "1".to_string(), true);
    embed.push_field("B", "2".to_string(), false);
    assert_eq!(embed.fields.len(), 2);
    assert_eq!(embed.fields[0].name, "A");
    assert_eq!(embed.fields[0].value, "1");
    assert!(embed.fields[0].inline);
    assert_eq!(embed.fields[1].name, "B");
    assert!(!embed.fields[1].inline);
}

#[test]
fn find_option_takes_the_first_of_that_name() {
    let options = vec![
        ResolvedOption { name: "other".to_string(), value: OptionValue::Other },
        ResolvedOption { name: "search".to_string(), value: OptionValue::Text("one".to_string()) },
        ResolvedOption { name: "search".to_string(), value: OptionValue::Text("two".to_string()) },
        ResolvedOption { name: "seconds".to_string(), value: OptionValue::Number(Duration::from_secs(3)) },
    ];
    assert_eq!(find_option(&options, "search"), Some(&OptionValue::Text("one".to_string())));
    assert_eq!(find_option(&options, "seconds"), Some(&OptionValue::Number(Duration::from_secs(3))));
    assert_eq!(find_option(&options, "other"), Some(&OptionValue::Other));
    assert_eq!(find_option(&options, "missing"), None);
    assert_eq!(find_option(&Vec::new(), "search"), None);
}
