//! What every command goes through: the voice-membership check before it,
//! and the dispatcher's verdict after it.

use crate::cmd::{
    Capybara, Eval, Info, Join, Leave, Me, Pause, Play, Queue, Resume, Seek, Skip, Stop,
};
use crate::ids::{ChannelId, GuildId};
use crate::notice::Notice;
use crate::options::{CommandInfo, CommandInfoView};
use crate::text::{decimal, push_decimal, same_text};
use crate::playback::{voip_data_of, VOIPData, VoiceStateError};
use crate::session::SessionView;
use vstd::prelude::*;

verus! {

/// What is known of the voice side when a command arrives.
#[derive(Clone, Copy, Debug, PartialEq, Eq, Structural)]
pub struct VoiceScene {
    /// The guild the command was sent in, if any.
    pub guild_id: Option<GuildId>,
    /// `None` while the guild is not known; otherwise the voice channel the
    /// invoker sits in, if any.
    pub voice_channel: Option<Option<ChannelId>>,
    /// Whether the voice client is there at all.
    pub voice_client: bool,
    /// `None` when the bot has no connection in the guild; otherwise the
    /// channel that the live connection reports, if it reports one.
    pub call_channel: Option<Option<ChannelId>>,
}

/// The verdict of the membership check. A command that changes a session may
/// go on only for an invoker who sits in the very channel that the bot's live
/// connection reports.
pub open spec fn control_verdict(scene: VoiceScene) -> Result<VOIPData, Notice> {
    match voip_data_of(scene.guild_id, scene.voice_channel) {
        Err(e) => Err(Notice::Voice(e)),
        Ok(invoker) => if !scene.voice_client {
            Err(Notice::NoVoiceClient)
        } else {
            match scene.call_channel {
                None => Err(Notice::Voice(VoiceStateError::NotConnected)),
                Some(c) => if c == Some(invoker.channel_id) {
                    Ok(invoker)
                } else {
                    Err(Notice::Voice(VoiceStateError::NotInChannel))
                },
            }
        },
    }
}

/// Checks that the invoker may control the session of the guild: see
/// [`control_verdict`]. Nothing is changed by the check.
pub fn check_control(scene: &VoiceScene) -> (r: Result<VOIPData, Notice>)
    ensures
        r == control_verdict(*scene),
{
    let invoker = match VOIPData::from(scene.guild_id, scene.voice_channel) {
        Ok(v) => v,
        Err(e) => {
            return Err(Notice::Voice(e));
        },
    };
    if !scene.voice_client {
        return Err(Notice::NoVoiceClient);
    }
    match invoker.guard(scene.call_channel) {
        Ok(()) => Ok(invoker),
        Err(e) => Err(Notice::Voice(e)),
    }
}

/// The guild whose session a controlling command may change: the invoker's,
/// if the membership check passes and the guild has a session.
pub open spec fn controlled_guild(
    scene: VoiceScene,
    sessions: Map<GuildId, SessionView>,
) -> Result<GuildId, Notice> {
    match control_verdict(scene) {
        Err(n) => Err(n),
        Ok(invoker) => if sessions.dom().contains(invoker.guild_id) {
            Ok(invoker.guild_id)
        } else {
            Err(Notice::Voice(VoiceStateError::NotConnected))
        },
    }
}

/// The guild whose session a reading command may look at: the invoker's, if
/// the bot is connected there and the guild has a session.
pub open spec fn viewed_guild(
    scene: VoiceScene,
    sessions: Map<GuildId, SessionView>,
) -> Result<GuildId, Notice> {
    match view_verdict(scene) {
        Err(n) => Err(n),
        Ok(invoker) => if sessions.dom().contains(invoker.guild_id) {
            Ok(invoker.guild_id)
        } else {
            Err(Notice::Voice(VoiceStateError::NotConnected))
        },
    }
}

/// The verdict of the check for a command that only reads the session of the
/// guild: the invoker must be in some voice channel of a known guild, and the
/// bot must be connected there.
pub open spec fn view_verdict(scene: VoiceScene) -> Result<VOIPData, Notice> {
    match voip_data_of(scene.guild_id, scene.voice_channel) {
        Err(e) => Err(Notice::Voice(e)),
        Ok(invoker) => if !scene.voice_client {
            Err(Notice::NoVoiceClient)
        } else if scene.call_channel is None {
            Err(Notice::Voice(VoiceStateError::NotConnected))
        } else {
            Ok(invoker)
        },
    }
}

/// Checks that the invoker may look at the session of the guild: see
/// [`view_verdict`].
pub fn check_view(scene: &VoiceScene) -> (r: Result<VOIPData, Notice>)
    ensures
        r == view_verdict(*scene),
{
    let invoker = match VOIPData::from(scene.guild_id, scene.voice_channel) {
        Ok(v) => v,
        Err(e) => {
            return Err(Notice::Voice(e));
        },
    };
    if !scene.voice_client {
        return Err(Notice::NoVoiceClient);
    }
    match scene.call_channel {
        Some(_) => Ok(invoker),
        None => Err(Notice::Voice(VoiceStateError::NotConnected)),
    }
}

/// The verdict of the check for a command that connects: the invoker must be
/// in some voice channel of a known guild, and the voice client must be
/// there. The invoker's channel is the one to connect to.
pub open spec fn connect_verdict(scene: VoiceScene) -> Result<VOIPData, Notice> {
    match voip_data_of(scene.guild_id, scene.voice_channel) {
        Err(e) => Err(Notice::Voice(e)),
        Ok(invoker) => if !scene.voice_client {
            Err(Notice::NoVoiceClient)
        } else {
            Ok(invoker)
        },
    }
}

/// Checks that the invoker may have the bot connect: see
/// [`connect_verdict`].
pub fn check_connect(scene: &VoiceScene) -> (r: Result<VOIPData, Notice>)
    ensures
        r == connect_verdict(*scene),
{
    let invoker = match VOIPData::from(scene.guild_id, scene.voice_channel) {
        Ok(v) => v,
        Err(e) => {
            return Err(Notice::Voice(e));
        },
    };
    if !scene.voice_client {
        return Err(Notice::NoVoiceClient);
    }
    Ok(invoker)
}

/// The seconds a command may take before the dispatcher answers in its
/// place.
pub const COMMAND_TIMEOUT_SECS: u64 = 10;

/// The commands that an invocation can be routed to.
#[derive(Clone, Copy, Debug, PartialEq, Eq, Structural)]
pub enum CommandKind {
    Join,
    Leave,
    Play,
    Seek,
    Skip,
    Queue,
    Stop,
    Capybara,
    Me,
    Info,
    Eval,
    Pause,
    Resume,
}

impl CommandKind {
    /// What the command is called.
    pub open spec fn label(self) -> Seq<char> {
        match self {
            CommandKind::Join => "join"@,
            CommandKind::Leave => "leave"@,
            CommandKind::Play => "play"@,
            CommandKind::Seek => "seek"@,
            CommandKind::Skip => "skip"@,
            CommandKind::Queue => "queue"@,
            CommandKind::Stop => "stop"@,
            CommandKind::Capybara => "capybara"@,
            CommandKind::Me => "me"@,
            CommandKind::Info => "info"@,
            CommandKind::Eval => "eval"@,
            CommandKind::Pause => "pause"@,
            CommandKind::Resume => "resume"@,
        }
    }

    /// What the command is called.
    pub fn name(&self) -> (r: &'static str)
        ensures
            r@ == self.label(),
    {
        match self {
            CommandKind::Join => Join::name(),
            CommandKind::Leave => Leave::name(),
            CommandKind::Play => Play::name(),
            CommandKind::Seek => Seek::name(),
            CommandKind::Skip => Skip::name(),
            CommandKind::Queue => Queue::name(),
            CommandKind::Stop => Stop::name(),
            CommandKind::Capybara => Capybara::name(),
            CommandKind::Me => Me::name(),
            CommandKind::Info => Info::name(),
            CommandKind::Eval => Eval::name(),
            CommandKind::Pause => Pause::name(),
            CommandKind::Resume => Resume::name(),
        }
    }

    /// How the command is declared.
    pub open spec fn declared(self) -> CommandInfoView {
        match self {
            CommandKind::Join => Join::declared(),
            CommandKind::Leave => Leave::declared(),
            CommandKind::Play => Play::declared(),
            CommandKind::Seek => Seek::declared(),
            CommandKind::Skip => Skip::declared(),
            CommandKind::Queue => Queue::declared(),
            CommandKind::Stop => Stop::declared(),
            CommandKind::Capybara => Capybara::declared(),
            CommandKind::Me => Me::declared(),
            CommandKind::Info => Info::declared(),
            CommandKind::Eval => Eval::declared(),
            CommandKind::Pause => Pause::declared(),
            CommandKind::Resume => Resume::declared(),
        }
    }

    /// The declaration of the command.
    pub fn info(&self) -> (r: CommandInfo)
        ensures
            r@ == self.declared(),
    {
        match self {
            CommandKind::Join => Join::info(),
            CommandKind::Leave => Leave::info(),
            CommandKind::Play => Play::info(),
            CommandKind::Seek => Seek::info(),
            CommandKind::Skip => Skip::info(),
            CommandKind::Queue => Queue::info(),
            CommandKind::Stop => Stop::info(),
            CommandKind::Capybara => Capybara::info(),
            CommandKind::Me => Me::info(),
            CommandKind::Info => Info::info(),
            CommandKind::Eval => Eval::info(),
            CommandKind::Pause => Pause::info(),
            CommandKind::Resume => Resume::info(),
        }
    }
}

/// The commands in the order in which they are tried, which is also the
/// order in which an invocation's name is compared with theirs.
pub open spec fn routing_order() -> Seq<CommandKind> {
    seq![
        CommandKind::Join,
        CommandKind::Leave,
        CommandKind::Play,
        CommandKind::Seek,
        CommandKind::Skip,
        CommandKind::Queue,
        CommandKind::Stop,
        CommandKind::Capybara,
        CommandKind::Me,
        CommandKind::Info,
        CommandKind::Eval,
        CommandKind::Pause,
        CommandKind::Resume,
    ]
}

/// The first of `kinds` that is called `name`.
pub open spec fn first_called(kinds: Seq<CommandKind>, name: Seq<char>) -> Option<CommandKind>
    decreases kinds.len(),
{
    if kinds.len() == 0 {
        None
    } else if kinds[0].label() == name {
        Some(kinds[0])
    } else {
        first_called(kinds.drop_first(), name)
    }
}

/// The command that an invocation called `name` goes to, if there is one.
pub open spec fn command_named(name: Seq<char>) -> Option<CommandKind> {
    first_called(routing_order(), name)
}

/// No two commands have the same name.
pub proof fn lemma_names_differ(a: CommandKind, b: CommandKind)
    requires
        a != b,
    ensures
        a.label() != b.label(),
{
    reveal_strlit("join");
    reveal_strlit("leave");
    reveal_strlit("play");
    reveal_strlit("seek");
    reveal_strlit("skip");
    reveal_strlit("queue");
    reveal_strlit("stop");
    reveal_strlit("capybara");
    reveal_strlit("me");
    reveal_strlit("info");
    reveal_strlit("eval");
    reveal_strlit("pause");
    reveal_strlit("resume");
    let x = a.label();
    let y = b.label();
    if x.len() == y.len() && x.len() >= 2 {
        assert(x[0] != y[0] || x[1] != y[1]);
    }
}

/// Every command is reached by its own name, and by no other.
pub proof fn lemma_route_by_name(kind: CommandKind)
    ensures
        command_named(kind.label()) == Some(kind),
        routed(kind.label()) == Ok::<CommandKind, Notice>(kind),
{
    lemma_first_called(routing_order(), kind);
}

proof fn lemma_first_called(kinds: Seq<CommandKind>, kind: CommandKind)
    requires
        kinds.contains(kind),
    ensures
        first_called(kinds, kind.label()) == Some(kind),
    decreases kinds.len(),
{
    if kinds[0] != kind {
        lemma_names_differ(kinds[0], kind);
        let rest = kinds.drop_first();
        let i = choose|i: int| 0 <= i < kinds.len() && kinds[i] == kind;
        assert(rest[i - 1] == kind);
        lemma_first_called(rest, kind);
    }
}

fn routing_table() -> (r: Vec<CommandKind>)
    ensures
        r@ == routing_order(),
{
    let mut r: Vec<CommandKind> = Vec::new();
    r.push(CommandKind::Join);
    r.push(CommandKind::Leave);
    r.push(CommandKind::Play);
    r.push(CommandKind::Seek);
    r.push(CommandKind::Skip);
    r.push(CommandKind::Queue);
    r.push(CommandKind::Stop);
    r.push(CommandKind::Capybara);
    r.push(CommandKind::Me);
    r.push(CommandKind::Info);
    r.push(CommandKind::Eval);
    r.push(CommandKind::Pause);
    r.push(CommandKind::Resume);
    proof {
        assert(r@ =~= routing_order());
    }
    r
}

/// Where an invocation called `name` goes: to the command of that name, or,
/// where no command has it, to the answer that the command is not valid.
pub open spec fn routed(name: Seq<char>) -> Result<CommandKind, Notice> {
    match command_named(name) {
        Some(kind) => Ok(kind),
        None => Err(Notice::InvalidCommand),
    }
}

/// Routes an invocation by its name. A name that no command has runs no
/// handler and is answered with [`Notice::InvalidCommand`].
pub fn route(name: &str) -> (r: Result<CommandKind, Notice>)
    ensures
        r == routed(name@),
{
    let table = routing_table();
    let mut i: usize = 0;
    proof {
        assert(table@.skip(0) == table@);
    }
    while i < table.len()
        invariant
            i <= table.len(),
            table@ == routing_order(),
            command_named(name@) == first_called(table@.skip(i as int), name@),
        decreases table.len() - i,
    {
        proof {
            assert(table@.skip(i as int)[0] == table@[i as int]);
            assert(table@.skip(i as int).drop_first() == table@.skip(i + 1));
        }
        if same_text(table[i].name(), name) {
            return Ok(table[i]);
        }
        i = i + 1;
    }
    Err(Notice::InvalidCommand)
}

/// The commands that are declared to the platform, in the order in which
/// they are declared.
pub open spec fn declared_order() -> Seq<CommandKind> {
    seq![
        CommandKind::Join,
        CommandKind::Leave,
        CommandKind::Play,
        CommandKind::Capybara,
        CommandKind::Seek,
        CommandKind::Skip,
        CommandKind::Queue,
        CommandKind::Me,
        CommandKind::Info,
        CommandKind::Stop,
        CommandKind::Eval,
        CommandKind::Pause,
        CommandKind::Resume,
    ]
}

/// The declarations of all commands, as they are handed to the platform.
pub fn command_list() -> (r: Vec<CommandInfo>)
    ensures
        r@.len() == declared_order().len(),
        forall|i: int| 0 <= i < r@.len() ==> (#[trigger] r@[i])@ == declared_order()[i].declared(),
{
    let mut r: Vec<CommandInfo> = Vec::new();
    r.push(Join::info());
    r.push(Leave::info());
    r.push(Play::info());
    r.push(Capybara::info());
    r.push(Seek::info());
    r.push(Skip::info());
    r.push(Queue::info());
    r.push(Me::info());
    r.push(Info::info());
    r.push(Stop::info());
    r.push(Eval::info());
    r.push(Pause::info());
    r.push(Resume::info());
    r
}

/// Where the commands are declared: in one guild, or everywhere.
pub open spec fn registered_heading(guild: Option<GuildId>) -> Seq<char> {
    match guild {
        Some(g) => "Added commands for Guild("@ + decimal(g.0 as nat) + "):\n"@,
        None => "Added global commands:\n"@,
    }
}

/// The names in `names`, one to a line.
pub open spec fn name_lines(names: Seq<String>) -> Seq<char>
    decreases names.len(),
{
    if names.len() == 0 {
        Seq::empty()
    } else {
        name_lines(names.drop_last()) + names.last()@ + "\n"@
    }
}

/// The line that records which commands the platform has accepted, for one
/// guild or for all.
pub fn register_commands(guild: Option<GuildId>, names: &Vec<String>) -> (r: String)
    ensures
        r@ == registered_heading(guild) + name_lines(names@),
{
    let mut out = match guild {
        Some(g) => {
            let mut head = String::from_str("Added commands for Guild(");
            push_decimal(&mut head, g.0 as u128);
            head.append("):\n");
            head
        },
        None => String::from_str("Added global commands:\n"),
    };
    let mut i: usize = 0;
    proof {
        assert(names@.take(0) =~= Seq::<String>::empty());
        assert(out@ =~= registered_heading(guild) + name_lines(names@.take(0)));
    }
    while i < names.len()
        invariant
            i <= names.len(),
            out@ == registered_heading(guild) + name_lines(names@.take(i as int)),
        decreases names.len() - i,
    {
        proof {
            assert(names@.take(i + 1).drop_last() == names@.take(i as int));
            assert(names@.take(i + 1).last() == names@[i as int]);
        }
        out.append(names[i].as_str());
        out.append("\n");
        proof {
            assert(out@ =~= registered_heading(guild) + name_lines(names@.take(i + 1)));
        }
        i = i + 1;
    }
    proof {
        assert(names@.take(i as int) == names@);
    }
    out
}

/// How the handler of a command ended, as far as the dispatcher waited.
#[derive(Clone, Copy, Debug, PartialEq, Eq, Structural)]
pub enum HandlerOutcome {
    /// The handler finished and has replied itself.
    Completed,
    /// The handler finished with an error.
    Failed,
    /// The handler had not finished when the time was up.
    TimedOut,
}

/// What the dispatcher puts in place of the deferred reply, if anything.
pub open spec fn outcome_notice(outcome: HandlerOutcome) -> Option<Notice> {
    match outcome {
        HandlerOutcome::Completed => None,
        HandlerOutcome::Failed => Some(Notice::ProcessingFailed),
        HandlerOutcome::TimedOut => Some(Notice::TookTooLong),
    }
}

/// The line that goes to the audit log: who ran which command, and whether
/// it went well.
pub open spec fn audit_line(outcome: HandlerOutcome, user: Seq<char>, command: Seq<char>) -> Seq<
    char,
> {
    if outcome == HandlerOutcome::Completed {
        user + " ran command "@ + command
    } else {
        user + " failed running command "@ + command
    }
}

/// What the dispatcher does once it has stopped waiting for a handler.
#[derive(Debug, PartialEq, Eq)]
pub struct Verdict {
    /// The line to put in place of the deferred reply, if any.
    pub overwrite: Option<Notice>,
    /// Whether the audit line records a failure.
    pub failure: bool,
    /// The audit line.
    pub audit: String,
}

/// Concludes a command: a handler that finished well has replied itself; one
/// that failed or ran out of time has its deferred reply overwritten. Every
/// outcome is recorded with the invoker and the command.
pub fn handle_commands(outcome: HandlerOutcome, user: &str, command: &str) -> (r: Verdict)
    ensures
        r.overwrite == outcome_notice(outcome),
        r.failure == (outcome != HandlerOutcome::Completed),
        r.audit@ == audit_line(outcome, user@, command@),
{
    let mut audit = String::from_str(user);
    let (overwrite, failure) = match outcome {
        HandlerOutcome::Completed => {
            audit.append(" ran command ");
            (None, false)
        },
        HandlerOutcome::Failed => {
            audit.append(" failed running command ");
            (Some(Notice::ProcessingFailed), true)
        },
        HandlerOutcome::TimedOut => {
            audit.append(" failed running command ");
            (Some(Notice::TookTooLong), true)
        },
    };
    audit.append(command);
    proof {
        assert(audit@ =~= audit_line(outcome, user@, command@));
    }
    Verdict { overwrite, failure, audit }
}

/// Where the dispatcher stands with one invocation.
#[derive(Clone, Copy, Debug, PartialEq, Eq, Structural)]
pub enum DispatchState {
    /// The invocation is acknowledged, the handler runs, the clock ticks.
    Waiting,
    /// The visible reply is settled; whatever comes now is too late.
    Closed,
}

/// What can happen to an invocation that the dispatcher waits for.
#[derive(Clone, Copy, Debug, PartialEq, Eq, Structural)]
pub enum DispatchEvent {
    /// The handler finished, well or not.
    Finished { ok: bool },
    /// The time for the handler is up.
    TimerExpired,
}

/// How `event` is to be read in `state`: while the dispatcher waits, the
/// first event settles the outcome; once it has closed, nothing does.
pub open spec fn outcome_of(state: DispatchState, event: DispatchEvent) -> Option<HandlerOutcome> {
    match state {
        DispatchState::Closed => None,
        DispatchState::Waiting => Some(
            match event {
                DispatchEvent::Finished { ok } => if ok {
                    HandlerOutcome::Completed
                } else {
                    HandlerOutcome::Failed
                },
                DispatchEvent::TimerExpired => HandlerOutcome::TimedOut,
            },
        ),
    }
}

/// The outcomes that the dispatcher settles on as `events` arrive one after
/// another, starting in `state`.
pub open spec fn outcomes(state: DispatchState, events: Seq<DispatchEvent>) -> Seq<HandlerOutcome>
    decreases events.len(),
{
    if events.len() == 0 {
        Seq::empty()
    } else {
        match outcome_of(state, events[0]) {
            Some(o) => seq![o] + outcomes(DispatchState::Closed, events.drop_first()),
            None => outcomes(DispatchState::Closed, events.drop_first()),
        }
    }
}

/// The dispatcher's hold on one invocation.
#[derive(Debug)]
pub struct Dispatcher {
    state: DispatchState,
}

impl View for Dispatcher {
    type V = DispatchState;

    closed spec fn view(&self) -> DispatchState {
        self.state
    }
}

impl Dispatcher {
    /// The dispatcher right after it has acknowledged an invocation.
    pub fn new() -> (r: Dispatcher)
        ensures
            r@ == DispatchState::Waiting,
    {
        Dispatcher { state: DispatchState::Waiting }
    }

    /// Whether the visible reply is settled.
    pub fn is_closed(&self) -> (r: bool)
        ensures
            r == (self@ == DispatchState::Closed),
    {
        match self.state {
            DispatchState::Closed => true,
            DispatchState::Waiting => false,
        }
    }

    /// Takes note of `event`. The first event closes the invocation and
    /// gives its outcome; every later one is ignored, so that a handler that
    /// finishes after its time was up changes nothing.
    pub fn on_event(&mut self, event: DispatchEvent) -> (r: Option<HandlerOutcome>)
        ensures
            r == outcome_of(old(self)@, event),
            final(self)@ == DispatchState::Closed,
    {
        let r = match self.state {
            DispatchState::Closed => None,
            DispatchState::Waiting => Some(
                match event {
                    DispatchEvent::Finished { ok } => if ok {
                        HandlerOutcome::Completed
                    } else {
                        HandlerOutcome::Failed
                    },
                    DispatchEvent::TimerExpired => HandlerOutcome::TimedOut,
                },
            ),
        };
        self.state = DispatchState::Closed;
        r
    }
}

/// Once the dispatcher has closed an invocation, no event settles anything.
pub proof fn lemma_closed_is_silent(events: Seq<DispatchEvent>)
    ensures
        outcomes(DispatchState::Closed, events) == Seq::<HandlerOutcome>::empty(),
    decreases events.len(),
{
    if events.len() > 0 {
        lemma_closed_is_silent(events.drop_first());
    }
}

/// Whatever arrives, and in whatever order, an invocation is settled once:
/// by the first event. If the time is up before the handler has finished,
/// the one outcome is the timeout, whatever the handler does afterwards.
pub proof fn lemma_settled_once(events: Seq<DispatchEvent>)
    requires
        events.len() > 0,
    ensures
        outcomes(DispatchState::Waiting, events) == seq![
            outcome_of(DispatchState::Waiting, events[0])->0,
        ],
        events[0] == DispatchEvent::TimerExpired ==> outcomes(DispatchState::Waiting, events)
            == seq![HandlerOutcome::TimedOut],
{
    lemma_closed_is_silent(events.drop_first());
    assert(seq![outcome_of(DispatchState::Waiting, events[0])->0] + Seq::<
        HandlerOutcome,
    >::empty() =~= seq![outcome_of(DispatchState::Waiting, events[0])->0]);
}

} // verus!
