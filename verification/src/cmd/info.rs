//! `info`: show what is known of a user.

use crate::constants::EMBED_COLOUR;
use crate::embed::{field, Embed, EmbedView, Reply, ReplyView};
use crate::ids::UserId;
use crate::notice::Notice;
use crate::options::{
    find_option, option_named, CommandInfo, CommandInfoView, CommandOptionType, OptionValue,
    ResolvedOption,
};
use crate::text::{decimal, md_escaped, push_decimal, remove_md_characters};
use std::fmt::Write;
use vstd::prelude::*;

verus! {

/// The command that shows a user.
pub struct Info;

/// The option that names the user to show.
pub const USER_OPTION_NAME: &'static str = "user";

/// How the day an account was made is written: day, month by name, year,
/// and the time of day.
pub const JOINED_AT_FORMAT: &'static str = "%d %B %Y, %H:%M:%S";

/// What the platform knows of a user.
#[derive(Debug, PartialEq, Eq)]
pub struct UserProfile {
    pub id: UserId,
    pub name: String,
    /// The address of the user's picture, or of the default one.
    pub face: String,
    pub bot: bool,
    /// When the account was made, in seconds since 1970.
    pub created_at: i64,
    /// The colour the user chose, as `0xRRGGBB`.
    pub accent_colour: Option<u32>,
    pub banner_url: Option<String>,
}

/// What a guild knows of one of its members.
#[derive(Debug, PartialEq, Eq)]
pub struct MemberProfile {
    pub display_name: String,
    pub avatar_url: Option<String>,
}

/// Why a moment could not be written out.
#[derive(Clone, Copy, Debug, PartialEq, Eq, Structural)]
pub enum StampError {
    /// The moment lies outside the calendar.
    OutOfRange,
    /// The pattern cannot be followed.
    BadPattern,
}

/// The moment `secs` seconds after the start of 1970, in universal time,
/// written out as `pattern` says, or the reason why it cannot be written.
pub uninterp spec fn timestamp_text(secs: int, pattern: Seq<char>) -> Result<Seq<char>, StampError>;

/// The text that a written moment holds.
pub open spec fn stamp_view(r: Result<String, StampError>) -> Result<Seq<char>, StampError> {
    match r {
        Ok(s) => Ok(s@),
        Err(e) => Err(e),
    }
}

/// Makes the moment with `chrono::DateTime::from_timestamp`, which gives
/// none for a number of seconds outside the calendar, and writes it with
/// `NaiveDateTime::format`, whose `Display` fails on a pattern it cannot
/// follow. The outcome is taken to depend on the number and the pattern
/// alone, which is what [`timestamp_text`] names.
#[verifier::external_body]
fn format_timestamp(secs: i64, pattern: &str) -> (r: Result<String, StampError>)
    ensures
        stamp_view(r) == timestamp_text(secs as int, pattern@),
{
    match chrono::DateTime::from_timestamp(secs, 0) {
        Some(moment) => {
            let mut out = String::new();
            match write!(out, "{}", moment.naive_utc().format(pattern)) {
                Ok(()) => Ok(out),
                Err(_) => Err(StampError::BadPattern),
            }
        },
        None => Err(StampError::OutOfRange),
    }
}

/// The user to show: the one named by the `user` option, or the invoker
/// where there is no such option.
pub open spec fn info_target(options: Seq<ResolvedOption>, invoker: UserId) -> Result<
    UserId,
    Notice,
> {
    match option_named(options, USER_OPTION_NAME@) {
        Some(OptionValue::User(id)) => Ok(id),
        Some(_) => Err(Notice::InvalidUser),
        None => Ok(invoker),
    }
}

/// The name a user is shown under in a guild.
pub open spec fn shown_nick(user: UserProfile, member: Option<MemberProfile>) -> Seq<char> {
    match member {
        Some(m) => m.display_name@,
        None => user.name@,
    }
}

/// The picture a user is shown with in a guild.
pub open spec fn shown_avatar(user: UserProfile, member: Option<MemberProfile>) -> Seq<char> {
    match member {
        Some(m) => match m.avatar_url {
            Some(url) => url@,
            None => user.face@,
        },
        None => user.face@,
    }
}

/// The card that shows a user, `joined` being the day the account was made,
/// written out.
pub open spec fn info_card(
    user: UserProfile,
    member: Option<MemberProfile>,
    joined: Seq<char>,
) -> ReplyView {
    ReplyView {
        embed: EmbedView {
            title: Some(md_escaped(shown_nick(user, member))),
            image: Some(
                match user.banner_url {
                    Some(url) => url@,
                    None => Seq::empty(),
                },
            ),
            thumbnail: Some(shown_avatar(user, member)),
            colour: match user.accent_colour {
                Some(c) => c,
                None => EMBED_COLOUR,
            },
            fields: seq![
                field("User"@, user.name@, true),
                field("Joined at"@, joined, true),
                field(
                    "Is a bot?"@,
                    if user.bot {
                        "Yes"@
                    } else {
                        "No"@
                    },
                    false,
                ),
            ],
            footer: Some("UserID: "@ + decimal(user.id.0 as nat)),
            ..EmbedView::blank()
        },
        button: None,
    }
}

/// The day an account was made, written out. A day outside the calendar is
/// shown as the first day of 1970; where the pattern cannot be followed
/// nothing is shown.
pub open spec fn joined_at(created_at: int) -> Seq<char> {
    match timestamp_text(created_at, JOINED_AT_FORMAT@) {
        Ok(t) => t,
        Err(StampError::OutOfRange) => match timestamp_text(0, JOINED_AT_FORMAT@) {
            Ok(t) => t,
            Err(_) => Seq::empty(),
        },
        Err(StampError::BadPattern) => Seq::empty(),
    }
}

impl Info {
    /// What the command is called.
    pub fn name() -> (r: &'static str)
        ensures
            r@ == "info"@,
    {
        "info"
    }

    /// How the command is declared.
    pub open spec fn declared() -> CommandInfoView {
        CommandInfoView::with_option(
            "info"@,
            "View info on your own or someone else's Discord user"@,
            CommandOptionType::User,
            USER_OPTION_NAME@,
            "User you want to view info on, defaults your own user"@,
            false,
        )
    }

    /// The declaration of the command.
    pub fn info() -> (r: CommandInfo)
        ensures
            r@ == Self::declared(),
    {
        CommandInfo::with_option(
            Info::name(),
            "View info on your own or someone else's Discord user",
            CommandOptionType::User,
            USER_OPTION_NAME,
            "User you want to view info on, defaults your own user",
            false,
        )
    }

    /// The user to show: see [`info_target`].
    pub fn target(options: &Vec<ResolvedOption>, invoker: UserId) -> (r: Result<UserId, Notice>)
        ensures
            r == info_target(options@, invoker),
    {
        match find_option(options, USER_OPTION_NAME) {
            Some(OptionValue::User(id)) => Ok(*id),
            Some(_) => Err(Notice::InvalidUser),
            None => Ok(invoker),
        }
    }

    /// The card that shows `user`, as the member `member` of the guild where
    /// that is known, with the day the account was made written as `joined`.
    pub fn card(user: UserProfile, member: Option<MemberProfile>, joined: String) -> (r: Reply)
        ensures
            r@ == info_card(user, member, joined@),
    {
        let mut embed = Embed::new();
        let (nick, avatar) = match member {
            Some(m) => (
                remove_md_characters(m.display_name.as_str()),
                match m.avatar_url {
                    Some(url) => url,
                    None => user.face,
                },
            ),
            None => (remove_md_characters(user.name.as_str()), user.face),
        };
        embed.title = Some(nick);
        embed.image = Some(
            match user.banner_url {
                Some(url) => url,
                None => String::new(),
            },
        );
        embed.thumbnail = Some(avatar);
        embed.colour = match user.accent_colour {
            Some(c) => c,
            None => EMBED_COLOUR,
        };
        embed.push_field("User", user.name, true);
        embed.push_field("Joined at", joined, true);
        embed.push_field(
            "Is a bot?",
            if user.bot {
                String::from_str("Yes")
            } else {
                String::from_str("No")
            },
            false,
        );
        let mut footer = String::from_str("UserID: ");
        push_decimal(&mut footer, user.id.0 as u128);
        embed.footer = Some(footer);
        let r = Reply { embed, button: None };
        proof {
            assert(r@.embed.fields =~= info_card(user, member, joined@).embed.fields);
        }
        r
    }

    /// Writes out the day an account was made: see [`joined_at`].
    pub fn joined(created_at: i64) -> (r: String)
        ensures
            r@ == joined_at(created_at as int),
    {
        match format_timestamp(created_at, JOINED_AT_FORMAT) {
            Ok(t) => t,
            Err(StampError::OutOfRange) => match format_timestamp(0, JOINED_AT_FORMAT) {
                Ok(t) => t,
                Err(_) => String::new(),
            },
            Err(StampError::BadPattern) => String::new(),
        }
    }

    /// The reply that shows `user`, as the member `member` of the guild where
    /// that is known.
    pub fn reply(user: UserProfile, member: Option<MemberProfile>) -> (r: Reply)
        ensures
            r@ == info_card(user, member, joined_at(user.created_at as int)),
    {
        let joined = Info::joined(user.created_at);
        Info::card(user, member, joined)
    }
}

} // verus!
