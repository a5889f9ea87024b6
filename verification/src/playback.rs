//! Track metadata, voice membership of the invoker, and how a track's length
//! is shown.

use crate::constants::placeholder_img;
use crate::ids::{ChannelId, GuildId, TrackId};
use crate::text::{contains, contains_text};
use crate::time::{duration_text, format_duration, Duration, NANOS_PER_SEC};
use vstd::prelude::*;

verus! {

/// The view of an optional string.
pub open spec fn opt_text(s: Option<String>) -> Option<Seq<char>> {
    match s {
        Some(t) => Some(t@),
        None => None,
    }
}

/// A copy of an optional string.
pub fn clone_opt_text(s: &Option<String>) -> (r: Option<String>)
    ensures
        r == *s,
{
    match s {
        Some(t) => Some(t.clone()),
        None => None,
    }
}

/// What is known of a track once its source has been resolved.
#[derive(Debug, PartialEq, Eq)]
pub struct SongMetadata {
    pub title: String,
    pub thumbnail: String,
    pub duration: Duration,
    pub url: Option<String>,
}

/// The mathematical content of a [`SongMetadata`].
pub struct SongMetadataView {
    pub title: Seq<char>,
    pub thumbnail: Seq<char>,
    pub duration: Duration,
    pub url: Option<Seq<char>>,
}

impl View for SongMetadata {
    type V = SongMetadataView;

    open spec fn view(&self) -> SongMetadataView {
        SongMetadataView {
            title: self.title@,
            thumbnail: self.thumbnail@,
            duration: self.duration,
            url: opt_text(self.url),
        }
    }
}

impl Clone for SongMetadata {
    fn clone(&self) -> (r: Self)
        ensures
            r == *self,
    {
        SongMetadata {
            title: self.title.clone(),
            thumbnail: self.thumbnail.clone(),
            duration: self.duration,
            url: clone_opt_text(&self.url),
        }
    }
}

/// What a resolver reports of a source; every part may be missing.
#[derive(Debug, PartialEq, Eq)]
pub struct AuxMetadata {
    pub title: Option<String>,
    pub thumbnail: Option<String>,
    pub duration: Option<Duration>,
    pub source_url: Option<String>,
}

/// The title shown for a track whose title is unknown.
pub open spec fn unknown_title() -> Seq<char> {
    "N/A"@
}

/// The address of the picture shown for a track without one.
pub open spec fn placeholder_img_text() -> Seq<char> {
    "https://karei.dev/files/capybara-default.jpg"@
}

/// The metadata kept for a source, given what the resolver reported, if it
/// reported anything: each missing part gets its default.
pub open spec fn metadata_of(aux: Option<AuxMetadata>) -> SongMetadataView {
    match aux {
        Some(m) => SongMetadataView {
            title: match m.title {
                Some(t) => t@,
                None => unknown_title(),
            },
            thumbnail: match m.thumbnail {
                Some(t) => t@,
                None => placeholder_img_text(),
            },
            duration: match m.duration {
                Some(d) => d,
                None => Duration { nanos: 0 },
            },
            url: opt_text(m.source_url),
        },
        None => SongMetadataView {
            title: unknown_title(),
            thumbnail: placeholder_img_text(),
            duration: Duration { nanos: 0 },
            url: None,
        },
    }
}

impl SongMetadata {
    /// The metadata of a resolved source. Where the resolver failed, or left a
    /// part out, the track is still playable and gets the default for it.
    pub fn from_source(aux: Option<AuxMetadata>) -> (r: SongMetadata)
        ensures
            r@ == metadata_of(aux),
    {
        match aux {
            Some(m) => {
                let thumbnail = match m.thumbnail {
                    Some(t) => t,
                    None => placeholder_img(),
                };
                let title = match m.title {
                    Some(t) => t,
                    None => String::from_str("N/A"),
                };
                let duration = match m.duration {
                    Some(d) => d,
                    None => Duration::zero(),
                };
                SongMetadata { title, thumbnail, duration, url: m.source_url }
            },
            None => SongMetadata {
                title: String::from_str("N/A"),
                thumbnail: placeholder_img(),
                duration: Duration::zero(),
                url: None,
            },
        }
    }
}

/// Where the invoker of a command is: the guild the command came from and
/// the voice channel the invoker sits in.
#[derive(Clone, Copy, Debug, PartialEq, Eq, Structural)]
pub struct VOIPData {
    pub channel_id: ChannelId,
    pub guild_id: GuildId,
}

/// Why a command cannot act on the voice connection of its guild.
#[derive(Clone, Copy, Debug, PartialEq, Eq, Structural)]
pub enum VoiceStateError {
    /// The command carries no guild, or the guild is not known yet.
    GuildUnknown,
    /// The invoker sits in no voice channel.
    NotInVoice,
    /// The invoker sits in another channel than the one the bot is in.
    NotInChannel,
    /// The bot has no voice connection in the guild.
    NotConnected,
}

impl VoiceStateError {
    /// The sentence shown to the invoker.
    pub open spec fn text(self) -> Seq<char> {
        match self {
            VoiceStateError::GuildUnknown => "Error getting guild information"@,
            VoiceStateError::NotInVoice => "Join a voice channel first"@,
            VoiceStateError::NotInChannel => "You're not in the voice channel"@,
            VoiceStateError::NotConnected => "Not in a voice channel"@,
        }
    }

    /// The sentence shown to the invoker.
    pub fn message(&self) -> (r: String)
        ensures
            r@ == self.text(),
    {
        match self {
            VoiceStateError::GuildUnknown => String::from_str("Error getting guild information"),
            VoiceStateError::NotInVoice => String::from_str("Join a voice channel first"),
            VoiceStateError::NotInChannel => String::from_str("You're not in the voice channel"),
            VoiceStateError::NotConnected => String::from_str("Not in a voice channel"),
        }
    }
}

/// Where the invoker is, given the guild of the command and, if that guild
/// is known, the voice channel the invoker sits in.
pub open spec fn voip_data_of(
    guild_id: Option<GuildId>,
    voice_channel: Option<Option<ChannelId>>,
) -> Result<VOIPData, VoiceStateError> {
    match guild_id {
        None => Err(VoiceStateError::GuildUnknown),
        Some(guild_id) => match voice_channel {
            None => Err(VoiceStateError::GuildUnknown),
            Some(None) => Err(VoiceStateError::NotInVoice),
            Some(Some(channel_id)) => Ok(VOIPData { channel_id, guild_id }),
        },
    }
}

impl VOIPData {
    /// Finds the invoker's guild and voice channel. `guild_id` is the guild
    /// the command was sent in; `voice_channel` is `None` while the guild is
    /// not known, and otherwise the voice channel of the invoker, if any.
    pub fn from(guild_id: Option<GuildId>, voice_channel: Option<Option<ChannelId>>) -> (r: Result<
        VOIPData,
        VoiceStateError,
    >)
        ensures
            r == voip_data_of(guild_id, voice_channel),
    {
        let guild_id = match guild_id {
            Some(g) => g,
            None => {
                return Err(VoiceStateError::GuildUnknown);
            },
        };
        match voice_channel {
            Some(Some(channel_id)) => Ok(VOIPData { channel_id, guild_id }),
            Some(None) => Err(VoiceStateError::NotInVoice),
            None => Err(VoiceStateError::GuildUnknown),
        }
    }

    /// Whether the invoker sits in the channel that the bot's connection
    /// reports right now.
    pub fn compare_to_call(&self, call_channel: Option<ChannelId>) -> (r: bool)
        ensures
            r == (call_channel == Some(self.channel_id)),
    {
        match call_channel {
            Some(c) => c.0 == self.channel_id.0,
            None => false,
        }
    }

    /// The check made before a command may change a session: the bot must be
    /// connected in the guild, and the invoker must sit in the bot's channel.
    /// `call_channel` is `None` when the bot has no connection in the guild,
    /// and otherwise the channel that the connection reports.
    pub fn guard(&self, call_channel: Option<Option<ChannelId>>) -> (r: Result<(), VoiceStateError>)
        ensures
            r == match call_channel {
                None => Err::<(), VoiceStateError>(VoiceStateError::NotConnected),
                Some(c) => if c == Some(self.channel_id) {
                    Ok(())
                } else {
                    Err(VoiceStateError::NotInChannel)
                },
            },
    {
        match call_channel {
            None => Err(VoiceStateError::NotConnected),
            Some(c) => if self.compare_to_call(c) {
                Ok(())
            } else {
                Err(VoiceStateError::NotInChannel)
            },
        }
    }
}

/// How a request for a track is handed to the resolver.
#[derive(Debug, PartialEq, Eq)]
pub enum SourceRequest {
    /// The request holds an address to fetch.
    Url(String),
    /// The request is a phrase to search for.
    Search(String),
}

/// The mathematical content of a [`SourceRequest`].
pub enum SourceRequestView {
    Url(Seq<char>),
    Search(Seq<char>),
}

impl View for SourceRequest {
    type V = SourceRequestView;

    open spec fn view(&self) -> SourceRequestView {
        match self {
            SourceRequest::Url(s) => SourceRequestView::Url(s@),
            SourceRequest::Search(s) => SourceRequestView::Search(s@),
        }
    }
}

/// Decides whether `param` names an address or a search phrase: it is an
/// address exactly when `https://` occurs in it.
pub fn get_source(param: String) -> (r: SourceRequest)
    ensures
        r@ == if contains_text(param@, "https://"@) {
            SourceRequestView::Url(param@)
        } else {
            SourceRequestView::Search(param@)
        },
{
    if contains(param.as_str(), "https://") {
        SourceRequest::Url(param)
    } else {
        SourceRequest::Search(param)
    }
}

/// How the length of a track is shown.
#[derive(Debug, PartialEq, Eq)]
pub enum DurationFormat {
    /// An ongoing broadcast: it has no length.
    Live(),
    /// A length, written out.
    Normal(String),
}

/// The mathematical content of a [`DurationFormat`].
pub enum DurationFormatView {
    Live,
    Normal(Seq<char>),
}

impl View for DurationFormat {
    type V = DurationFormatView;

    open spec fn view(&self) -> DurationFormatView {
        match self {
            DurationFormat::Live() => DurationFormatView::Live,
            DurationFormat::Normal(s) => DurationFormatView::Normal(s@),
        }
    }
}

impl DurationFormatView {
    /// The text shown.
    pub open spec fn text(self) -> Seq<char> {
        match self {
            DurationFormatView::Live => "LIVE"@,
            DurationFormatView::Normal(s) => s,
        }
    }
}

/// How a track of `nanos` nanoseconds is shown, live or not.
pub open spec fn duration_format(nanos: nat, live: bool) -> DurationFormatView {
    if live {
        DurationFormatView::Live
    } else {
        DurationFormatView::Normal(duration_text(nanos / (NANOS_PER_SEC as nat)))
    }
}

impl DurationFormat {
    /// The format of a track of length `d` that is known to be live or not.
    pub fn of(d: Duration, live: bool) -> (r: DurationFormat)
        ensures
            r@ == duration_format(d@, live),
    {
        if live {
            DurationFormat::Live()
        } else {
            DurationFormat::Normal(format_duration(d))
        }
    }

    /// Whether this is the format of a live track.
    pub fn is_live(&self) -> (r: bool)
        ensures
            r == (self@ is Live),
    {
        match self {
            DurationFormat::Live() => true,
            DurationFormat::Normal(_) => false,
        }
    }

    /// The text shown: `LIVE`, or the length.
    pub fn to_string(&self) -> (r: String)
        ensures
            r@ == self@.text(),
    {
        match self {
            DurationFormat::Live() => String::from_str("LIVE"),
            DurationFormat::Normal(s) => s.clone(),
        }
    }
}

impl From<DurationFormat> for bool {
    /// Whether the format is that of a live track.
    fn from(duration_format: DurationFormat) -> (r: bool) {
        match duration_format {
            DurationFormat::Live() => true,
            DurationFormat::Normal(_) => false,
        }
    }
}

impl vstd::std_specs::convert::FromSpecImpl<DurationFormat> for bool {
    open spec fn obeys_from_spec() -> bool {
        true
    }

    open spec fn from_spec(duration_format: DurationFormat) -> bool {
        duration_format@ is Live
    }
}

impl From<&DurationFormat> for bool {
    /// Whether the format is that of a live track.
    fn from(duration_format: &DurationFormat) -> (r: bool) {
        match duration_format {
            DurationFormat::Live() => true,
            DurationFormat::Normal(_) => false,
        }
    }
}

impl vstd::std_specs::convert::FromSpecImpl<&DurationFormat> for bool {
    open spec fn obeys_from_spec() -> bool {
        true
    }

    open spec fn from_spec(duration_format: &DurationFormat) -> bool {
        duration_format@ is Live
    }
}

/// What the titles of live broadcasts end in: some text, then a date as
/// `YYYY-MM-DD`, one character that belongs to no word, and a time as `H:M`
/// with one or two digits each.
pub const LIVE_TITLE_PATTERN: &'static str =
    ".+([0-9]){4}-([0-9]){2}-([0-9]){2}\\W([0-9]){1,2}:([0-9]){1,2}$";

/// Whether `pattern`, read as a regular expression, has a match somewhere in
/// `text`; `None` where `pattern` is not accepted as a regular expression.
pub uninterp spec fn regex_search(pattern: Seq<char>, text: Seq<char>) -> Option<bool>;

/// Compiles `pattern` with `regex::Regex::new` and searches `text` with
/// `Regex::is_match`. The result is taken to depend on the two texts alone,
/// which is what [`regex_search`] names: `None` stands for a pattern that the
/// crate refuses, `Some` holds what the search returned.
#[verifier::external_body]
fn regex_is_match(pattern: &str, text: &str) -> (r: Option<bool>)
    ensures
        r == regex_search(pattern@, text@),
{
    match regex::Regex::new(pattern) {
        Ok(re) => Some(re.is_match(text)),
        Err(_) => None,
    }
}

/// Whether a title is that of a live broadcast.
pub open spec fn title_is_live(title: Seq<char>) -> bool {
    regex_search(LIVE_TITLE_PATTERN@, title) == Some(true)
}

/// Tells from its title whether a track is a live broadcast.
pub fn is_live_title(title: &str) -> (r: bool)
    ensures
        r == title_is_live(title@),
{
    match regex_is_match(LIVE_TITLE_PATTERN, title) {
        Some(found) => found,
        None => false,
    }
}

/// How the length `d` of a track titled `t` is shown: a live broadcast has no
/// length, whatever `d` says.
pub fn format_duration_live(d: Duration, t: &str) -> (r: DurationFormat)
    ensures
        r@ == duration_format(d@, title_is_live(t@)),
{
    DurationFormat::of(d, is_live_title(t))
}

/// One track of a queue: the number of the track instance, what is known of
/// the track, and whether it is a live broadcast. Nothing of it changes while
/// it is queued.
#[derive(Debug, PartialEq, Eq)]
pub struct QueueEntry {
    pub source: TrackId,
    pub metadata: SongMetadata,
    pub live: bool,
}

/// The mathematical content of a [`QueueEntry`].
pub struct QueueEntryView {
    pub source: TrackId,
    pub metadata: SongMetadataView,
    pub live: bool,
}

impl View for QueueEntry {
    type V = QueueEntryView;

    open spec fn view(&self) -> QueueEntryView {
        QueueEntryView { source: self.source, metadata: self.metadata@, live: self.live }
    }
}

impl Clone for QueueEntry {
    fn clone(&self) -> (r: Self)
        ensures
            r == *self,
    {
        QueueEntry { source: self.source, metadata: self.metadata.clone(), live: self.live }
    }
}

impl QueueEntry {
    /// The entry for the track instance `source` with this metadata; the
    /// title says whether the track is live.
    pub fn new(source: TrackId, metadata: SongMetadata) -> (r: QueueEntry)
        ensures
            r.source == source,
            r.metadata == metadata,
            r.live == title_is_live(metadata.title@),
    {
        let live = is_live_title(metadata.title.as_str());
        QueueEntry { source, metadata, live }
    }

    /// How the length of the track is shown.
    pub fn duration_format(&self) -> (r: DurationFormat)
        ensures
            r@ == duration_format(self.metadata.duration@, self.live),
    {
        DurationFormat::of(self.metadata.duration, self.live)
    }
}

impl SongMetadata {
    /// The metadata that a queued track carries.
    pub fn from_handle(handle: &QueueEntry) -> (r: SongMetadata)
        ensures
            r == handle.metadata,
    {
        handle.metadata.clone()
    }
}

/// The entries of a queue as mathematical values, in order.
pub open spec fn queue_view(queue: Seq<QueueEntry>) -> Seq<QueueEntryView> {
    queue.map_values(|e: QueueEntry| e@)
}

/// The summed length, in nanoseconds, of the entries that are not live.
pub open spec fn finite_total(queue: Seq<QueueEntryView>) -> nat
    decreases queue.len(),
{
    if queue.len() == 0 {
        0
    } else if queue.last().live {
        finite_total(queue.drop_last())
    } else {
        finite_total(queue.drop_last()) + queue.last().metadata.duration@
    }
}

/// Whether any entry is live.
pub open spec fn has_live(queue: Seq<QueueEntryView>) -> bool {
    exists|i: int| 0 <= i < queue.len() && (#[trigger] queue[i]).live
}

/// `n` nanoseconds, held at the longest span that a [`Duration`] can be.
pub open spec fn capped(n: nat) -> nat {
    if n <= u128::MAX {
        n
    } else {
        u128::MAX as nat
    }
}

/// The time it takes to play a queue: the lengths of its entries added up,
/// a live entry counting for nothing.
pub fn get_queue_duration(queue: &Vec<QueueEntry>) -> (total: Duration)
    ensures
        total@ == capped(finite_total(queue_view(queue@))),
{
    let ghost q = queue_view(queue@);
    let mut total = Duration::zero();
    let mut i: usize = 0;
    while i < queue.len()
        invariant
            i <= queue.len(),
            q == queue_view(queue@),
            total@ == capped(finite_total(q.take(i as int))),
        decreases queue.len() - i,
    {
        proof {
            assert(q.take(i + 1).drop_last() == q.take(i as int));
            assert(q.take(i + 1).last() == queue@[i as int]@);
        }
        if !queue[i].live {
            total = total.saturating_add(queue[i].metadata.duration);
        }
        i = i + 1;
    }
    proof {
        assert(q.take(i as int) == q);
    }
    total
}

/// Whether a queue holds a live entry.
pub fn queue_has_live(queue: &Vec<QueueEntry>) -> (live: bool)
    ensures
        live == has_live(queue_view(queue@)),
{
    let mut i: usize = 0;
    while i < queue.len()
        invariant
            i <= queue.len(),
            forall|k: int| 0 <= k < i ==> !(#[trigger] queue_view(queue@)[k]).live,
        decreases queue.len() - i,
    {
        if queue[i].live {
            assert(queue_view(queue@)[i as int].live);
            return true;
        }
        i = i + 1;
    }
    false
}

/// The number of entries of a queue and the time it takes to play them.
pub fn get_queue_length_and_duration(queue: &Vec<QueueEntry>) -> (r: (usize, Duration))
    ensures
        r.0 == queue@.len(),
        r.1@ == capped(finite_total(queue_view(queue@))),
{
    (queue.len(), get_queue_duration(queue))
}

} // verus!
