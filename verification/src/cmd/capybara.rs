//! `capybara`: post the picture of the day.

use crate::embed::{Embed, EmbedView, Reply, ReplyView};
use crate::options::{CommandInfo, CommandInfoView};
use vstd::prelude::*;

verus! {

/// The command that posts the picture of the day.
pub struct Capybara;

/// Where the pictures lie.
pub const FILE_URL: &'static str = "https://karei.dev/files/capybara-gifs/";

/// What the name of every picture starts with.
pub const FILE_PREFIX: &'static str = "cp_";

/// A day of the week.
#[derive(Clone, Copy, Debug, PartialEq, Eq, Structural)]
pub enum Weekday {
    Mon,
    Tue,
    Wed,
    Thu,
    Fri,
    Sat,
    Sun,
}

impl Weekday {
    /// The name of the day as the files spell it.
    pub open spec fn file_name(self) -> Seq<char> {
        match self {
            Weekday::Mon => "monday"@,
            Weekday::Tue => "tuesday"@,
            Weekday::Wed => "wednesday"@,
            Weekday::Thu => "thursday"@,
            Weekday::Fri => "friday"@,
            Weekday::Sat => "saturday"@,
            Weekday::Sun => "sunday"@,
        }
    }
}

/// The address of the picture of `day`.
pub open spec fn picture_url(day: Weekday) -> Seq<char> {
    FILE_URL@ + FILE_PREFIX@ + day.file_name() + ".gif"@
}

/// The reply that shows the picture of `day`.
pub open spec fn picture_reply(day: Weekday) -> ReplyView {
    ReplyView {
        embed: EmbedView { image: Some(picture_url(day)), ..EmbedView::blank() },
        button: None,
    }
}

/// Asks `chrono::Local::now` for the time in the machine's time zone and
/// `Datelike::weekday` for its day of the week. Nothing is claimed of the
/// day that comes back.
#[verifier::external_body]
fn today() -> (day: Weekday) {
    match chrono::Datelike::weekday(&chrono::Local::now()) {
        chrono::Weekday::Mon => Weekday::Mon,
        chrono::Weekday::Tue => Weekday::Tue,
        chrono::Weekday::Wed => Weekday::Wed,
        chrono::Weekday::Thu => Weekday::Thu,
        chrono::Weekday::Fri => Weekday::Fri,
        chrono::Weekday::Sat => Weekday::Sat,
        chrono::Weekday::Sun => Weekday::Sun,
    }
}

impl Capybara {
    /// What the command is called.
    pub fn name() -> (r: &'static str)
        ensures
            r@ == "capybara"@,
    {
        "capybara"
    }

    /// How the command is declared.
    pub open spec fn declared() -> CommandInfoView {
        CommandInfoView::plain("capybara"@, "Post today's capybara gif"@)
    }

    /// The declaration of the command.
    pub fn info() -> (r: CommandInfo)
        ensures
            r@ == Self::declared(),
    {
        CommandInfo::plain(Capybara::name(), "Post today's capybara gif")
    }

    /// The address of the picture of `day`.
    pub fn image_url(day: Weekday) -> (r: String)
        ensures
            r@ == picture_url(day),
    {
        let filename = match day {
            Weekday::Mon => "monday",
            Weekday::Tue => "tuesday",
            Weekday::Wed => "wednesday",
            Weekday::Thu => "thursday",
            Weekday::Fri => "friday",
            Weekday::Sat => "saturday",
            Weekday::Sun => "sunday",
        };
        let mut url = String::from_str(FILE_URL);
        url.append(FILE_PREFIX);
        url.append(filename);
        url.append(".gif");
        url
    }

    /// The reply that shows the picture of `day`.
    pub fn reply(day: Weekday) -> (r: Reply)
        ensures
            r@ == picture_reply(day),
    {
        let mut embed = Embed::new();
        embed.image = Some(Capybara::image_url(day));
        Reply { embed, button: None }
    }

    /// The reply that shows the picture of today, whichever day that is where
    /// the program runs.
    pub fn execute() -> (r: Reply)
        ensures
            exists|day: Weekday| r@ == picture_reply(day),
    {
        let day = today();
        let r = Capybara::reply(day);
        proof {
            assert(r@ == picture_reply(day));
        }
        r
    }
}

} // verus!
