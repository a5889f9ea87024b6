//! `seek`: jump forward in the track that plays.

use crate::commands::{check_control, controlled_guild, VoiceScene};
use crate::embed::{text_response, Reply, ReplyView};
use crate::playback::{voip_data_of, VOIPData, VoiceStateError};
use crate::registry::SessionRegistry;
use crate::session::SessionView;
use crate::ids::GuildId;
use crate::notice::Notice;
use crate::options::{
    find_option, option_named, CommandInfo, CommandInfoView, CommandOptionType, OptionValue,
    ResolvedOption,
};
use crate::session::{seek_verdict, PlaybackSession, SeekError};
use crate::text::{decimal, push_decimal};
use crate::time::{debug_text, Duration, NANOS_PER_SEC};
use vstd::prelude::*;

verus! {

/// The command that seeks.
pub struct Seek;

/// The option that holds the target, in seconds.
pub const SECONDS_OPTION_NAME: &'static str = "seconds";

/// The line that tells why a seek was refused.
pub open spec fn seek_refusal(e: SeekError) -> Seq<char> {
    match e {
        SeekError::NothingPlaying => Notice::NothingPlaying.text(),
        SeekError::PastEnd { max } => "Cannot seek past song's end (max: "@ + decimal(
            max@ / (NANOS_PER_SEC as nat),
        ) + "s)"@,
        SeekError::Backward { current } => "Cannot seek backwards (current: "@ + decimal(
            current@ / (NANOS_PER_SEC as nat),
        ) + "s)"@,
    }
}

/// The target of a seek: the number of the first `seconds` option.
pub open spec fn seek_target(options: Seq<ResolvedOption>) -> Result<Duration, Notice> {
    match option_named(options, SECONDS_OPTION_NAME@) {
        Some(OptionValue::Number(d)) => Ok(d),
        Some(_) => Err(Notice::MalformedTimestamp),
        None => Err(Notice::NoTimestamp),
    }
}

/// What a seek request comes to: the position that the transport is to seek
/// to, or the reply that says why not. The invoker must be known, the target
/// must be given, the invoker must sit in the bot's channel, and the target
/// must lie ahead of the position played and before the end of the track.
pub open spec fn seek_request(
    scene: VoiceScene,
    options: Seq<ResolvedOption>,
    sessions: Map<GuildId, SessionView>,
    elapsed: Option<Duration>,
) -> Result<Duration, ReplyView> {
    match voip_data_of(scene.guild_id, scene.voice_channel) {
        Err(e) => Err(ReplyView::text(e.text())),
        Ok(_) => match seek_target(options) {
            Err(n) => Err(ReplyView::text(n.text())),
            Ok(position) => match controlled_guild(scene, sessions) {
                Err(n) => Err(ReplyView::text(n.text())),
                Ok(guild) => match seek_verdict(
                    sessions[guild].playing(),
                    position,
                    elapsed_or_start(elapsed),
                ) {
                    Ok(p) => Ok(p),
                    Err(e) => Err(ReplyView::text(seek_refusal(e))),
                },
            },
        },
    }
}

/// The line that confirms a seek.
pub open spec fn seek_done(position: Duration) -> Seq<char> {
    "Seeked to "@ + debug_text(position@)
}

/// The position that the transport reports of the track that plays, or the
/// start of the track where it reports none.
pub open spec fn elapsed_or_start(elapsed: Option<Duration>) -> Duration {
    match elapsed {
        Some(e) => e,
        None => Duration { nanos: 0 },
    }
}

impl Seek {
    /// What the command is called.
    pub fn name() -> (r: &'static str)
        ensures
            r@ == "seek"@,
    {
        "seek"
    }

    /// How the command is declared.
    pub open spec fn declared() -> CommandInfoView {
        CommandInfoView::with_option(
                "seek"@,
                "Seek the currently playing song"@,
                CommandOptionType::Number,
                SECONDS_OPTION_NAME@,
                "Jump to this point in the audio"@,
                true,
            )
    }

    /// The declaration of the command.
    pub fn info() -> (r: CommandInfo)
        ensures
            r@ == Self::declared(),
    {
        CommandInfo::with_option(
            Seek::name(),
            "Seek the currently playing song",
            CommandOptionType::Number,
            SECONDS_OPTION_NAME,
            "Jump to this point in the audio",
            true,
        )
    }

    /// The target of the seek: the number of the first `seconds` option.
    pub fn timestamp(options: &Vec<ResolvedOption>) -> (r: Result<Duration, Notice>)
        ensures
            r == seek_target(options@),
    {
        match find_option(options, SECONDS_OPTION_NAME) {
            Some(OptionValue::Number(d)) => Ok(*d),
            Some(_) => Err(Notice::MalformedTimestamp),
            None => Err(Notice::NoTimestamp),
        }
    }

    /// The reply to a refused seek.
    pub fn refusal(e: SeekError) -> (r: Reply)
        ensures
            r@ == ReplyView::text(seek_refusal(e)),
    {
        match e {
            SeekError::NothingPlaying => Notice::NothingPlaying.reply(),
            SeekError::PastEnd { max } => {
                let mut line = String::from_str("Cannot seek past song's end (max: ");
                push_decimal(&mut line, max.as_secs());
                line.append("s)");
                text_response(line.as_str())
            },
            SeekError::Backward { current } => {
                let mut line = String::from_str("Cannot seek backwards (current: ");
                push_decimal(&mut line, current.as_secs());
                line.append("s)");
                text_response(line.as_str())
            },
        }
    }

    /// Runs the command for the invoker described by `scene`: see
    /// [`seek_request`]. `elapsed` is the position that the transport reports
    /// of the track that plays, if it reports one. No session changes.
    pub fn run(
        scene: &VoiceScene,
        options: &Vec<ResolvedOption>,
        registry: &SessionRegistry,
        elapsed: Option<Duration>,
    ) -> (r: Result<Duration, Reply>)
        ensures
            match seek_request(*scene, options@, registry@, elapsed) {
                Ok(p) => r is Ok && r->Ok_0 == p,
                Err(reply) => r is Err && r->Err_0@ == reply,
            },
    {
        match VOIPData::from(scene.guild_id, scene.voice_channel) {
            Ok(_) => {},
            Err(e) => {
                return Err(Notice::Voice(e).reply());
            },
        }
        let position = match Seek::timestamp(options) {
            Ok(p) => p,
            Err(n) => {
                return Err(n.reply());
            },
        };
        let invoker = match check_control(scene) {
            Ok(v) => v,
            Err(n) => {
                return Err(n.reply());
            },
        };
        match registry.get(invoker.guild_id) {
            Some(session) => Seek::execute(session, position, elapsed),
            None => Err(Notice::Voice(VoiceStateError::NotConnected).reply()),
        }
    }

    /// Decides the seek to `position` in `session`, where the transport
    /// reports `elapsed` as the position of the track that plays, if it
    /// reports one. `Ok` holds the position that the transport is to be told
    /// to seek to; `Err` holds the reply to a seek that is refused. The
    /// session is not changed.
    pub fn execute(session: &PlaybackSession, position: Duration, elapsed: Option<Duration>) -> (r:
        Result<Duration, Reply>)
        ensures
            match seek_verdict(session@.playing(), position, elapsed_or_start(elapsed)) {
                Ok(p) => r is Ok && r->Ok_0 == p,
                Err(e) => r is Err && r->Err_0@ == ReplyView::text(seek_refusal(e)),
            },
    {
        let elapsed = match elapsed {
            Some(e) => e,
            None => Duration::zero(),
        };
        match session.seek(position, elapsed) {
            Ok(p) => Ok(p),
            Err(e) => Err(Seek::refusal(e)),
        }
    }

    /// The reply once the transport has answered: the new position where it
    /// did seek, and a failure otherwise.
    pub fn reply(position: Duration, sought: bool) -> (r: Reply)
        ensures
            r@ == if sought {
                ReplyView::text(seek_done(position))
            } else {
                ReplyView::text(Notice::SeekFailed.text())
            },
    {
        if sought {
            let mut line = String::from_str("Seeked to ");
            let shown = position.debug_string();
            line.append(shown.as_str());
            text_response(line.as_str())
        } else {
            Notice::SeekFailed.reply()
        }
    }
}

} // verus!
