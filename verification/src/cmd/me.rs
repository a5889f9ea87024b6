//! `me`: show the bot's own picture.

use crate::embed::{Embed, EmbedView, Reply, ReplyView};
use crate::notice::Notice;
use crate::options::{CommandInfo, CommandInfoView};
use crate::playback::opt_text;
use vstd::prelude::*;

verus! {

/// The command that shows the bot's own picture.
pub struct Me;

/// The reply that shows the bot's picture, or a single fruit where it has
/// none.
pub open spec fn me_reply(avatar: Option<Seq<char>>) -> ReplyView {
    match avatar {
        Some(url) => ReplyView {
            embed: EmbedView { image: Some(url), footer: Some("💩"@), ..EmbedView::blank() },
            button: None,
        },
        None => ReplyView::text(Notice::NoAvatar.text()),
    }
}

impl Me {
    /// What the command is called.
    pub fn name() -> (r: &'static str)
        ensures
            r@ == "me"@,
    {
        "me"
    }

    /// How the command is declared.
    pub open spec fn declared() -> CommandInfoView {
        CommandInfoView::plain("me"@, "🍊"@)
    }

    /// The declaration of the command.
    pub fn info() -> (r: CommandInfo)
        ensures
            r@ == Self::declared(),
    {
        CommandInfo::plain(Me::name(), "🍊")
    }

    /// The reply, given the address of the bot's picture if it has one.
    pub fn reply(avatar: Option<String>) -> (r: Reply)
        ensures
            r@ == me_reply(opt_text(avatar)),
    {
        match avatar {
            Some(url) => {
                let mut embed = Embed::new();
                embed.image = Some(url);
                embed.footer = Some(String::from_str("💩"));
                Reply { embed, button: None }
            },
            None => Notice::NoAvatar.reply(),
        }
    }
}

} // verus!
