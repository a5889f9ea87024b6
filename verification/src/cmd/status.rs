//! `status`: show what was built, from what, and where.

use crate::embed::{field, Embed, EmbedView, Reply, ReplyView};
use crate::options::{CommandInfo, CommandInfoView};
use vstd::prelude::*;

verus! {

/// The command that shows the build.
pub struct Status;

/// What is known of the build at the time it is made.
#[derive(Debug, PartialEq, Eq)]
pub struct BuildInfo {
    pub version: String,
    pub rust: String,
    pub llvm: String,
    pub commit: String,
    pub host: String,
    pub timestamp: String,
}

/// The reply that shows a build.
pub open spec fn status_reply(build: BuildInfo) -> ReplyView {
    ReplyView {
        embed: EmbedView {
            title: Some("Status"@),
            fields: seq![
                field("Version"@, build.version@, true),
                field("Rust"@, build.rust@, true),
                field("LLVM"@, build.llvm@, true),
                field("Commit"@, build.commit@, true),
                field("Host"@, build.host@, false),
                field("Build"@, build.timestamp@, false),
            ],
            ..EmbedView::blank()
        },
        button: None,
    }
}

impl Status {
    /// What the command is called.
    pub fn name() -> (r: &'static str)
        ensures
            r@ == "status"@,
    {
        "status"
    }

    /// How the command is declared.
    pub open spec fn declared() -> CommandInfoView {
        CommandInfoView::plain("status"@, "display capybara status"@)
    }

    /// The declaration of the command.
    pub fn info() -> (r: CommandInfo)
        ensures
            r@ == Self::declared(),
    {
        CommandInfo::plain(Status::name(), "display capybara status")
    }

    /// The reply that shows `build`.
    pub fn reply(build: BuildInfo) -> (r: Reply)
        ensures
            r@ == status_reply(build),
    {
        let mut embed = Embed::new();
        embed.title = Some(String::from_str("Status"));
        embed.push_field("Version", build.version, true);
        embed.push_field("Rust", build.rust, true);
        embed.push_field("LLVM", build.llvm, true);
        embed.push_field("Commit", build.commit, true);
        embed.push_field("Host", build.host, false);
        embed.push_field("Build", build.timestamp, false);
        let r = Reply { embed, button: None };
        proof {
            assert(r@.embed.fields =~= status_reply(build).embed.fields);
        }
        r
    }
}

} // verus!
