//! What a command is declared with, and what an invocation carries.

use crate::ids::UserId;
use crate::time::Duration;
use vstd::prelude::*;

verus! {

/// The value of one option of an invocation.
#[derive(Debug, PartialEq, Eq)]
pub enum OptionValue {
    /// A text.
    Text(String),
    /// A number of seconds, as the span it stands for.
    Number(Duration),
    /// A user.
    User(UserId),
    /// A value of any other kind.
    Other,
}

/// One option of an invocation, with the name it was given under.
#[derive(Debug, PartialEq, Eq)]
pub struct ResolvedOption {
    pub name: String,
    pub value: OptionValue,
}

/// The value of the first option called `name`, if there is one.
pub open spec fn option_named(options: Seq<ResolvedOption>, name: Seq<char>) -> Option<
    OptionValue,
>
    decreases options.len(),
{
    if options.len() == 0 {
        None
    } else if options[0].name@ == name {
        Some(options[0].value)
    } else {
        option_named(options.drop_first(), name)
    }
}

/// Looks up the first option called `name`.
pub fn find_option<'a>(options: &'a Vec<ResolvedOption>, name: &str) -> (r: Option<
    &'a OptionValue,
>)
    ensures
        match r {
            Some(v) => option_named(options@, name@) == Some(*v),
            None => option_named(options@, name@) is None,
        },
{
    let mut i: usize = 0;
    proof {
        assert(options@.skip(0) == options@);
    }
    while i < options.len()
        invariant
            i <= options.len(),
            option_named(options@, name@) == option_named(options@.skip(i as int), name@),
        decreases options.len() - i,
    {
        proof {
            assert(options@.skip(i as int)[0] == options@[i as int]);
            assert(options@.skip(i as int).drop_first() == options@.skip(i + 1));
        }
        if *options[i].name.as_str() == *name {
            return Some(&options[i].value);
        }
        i = i + 1;
    }
    None
}

/// The kind of value that an option takes.
#[derive(Clone, Copy, Debug, PartialEq, Eq, Structural)]
pub enum CommandOptionType {
    Text,
    Number,
    User,
}

/// How one option of a command is declared.
#[derive(Debug, PartialEq, Eq)]
pub struct CommandOptionInfo {
    pub kind: CommandOptionType,
    pub name: String,
    pub description: String,
    pub required: bool,
}

/// The mathematical content of a [`CommandOptionInfo`].
pub struct CommandOptionInfoView {
    pub kind: CommandOptionType,
    pub name: Seq<char>,
    pub description: Seq<char>,
    pub required: bool,
}

impl View for CommandOptionInfo {
    type V = CommandOptionInfoView;

    open spec fn view(&self) -> CommandOptionInfoView {
        CommandOptionInfoView {
            kind: self.kind,
            name: self.name@,
            description: self.description@,
            required: self.required,
        }
    }
}

/// How a command is declared to the platform.
#[derive(Debug, PartialEq, Eq)]
pub struct CommandInfo {
    pub name: String,
    pub description: String,
    pub option: Option<CommandOptionInfo>,
}

/// The mathematical content of a [`CommandInfo`].
pub struct CommandInfoView {
    pub name: Seq<char>,
    pub description: Seq<char>,
    pub option: Option<CommandOptionInfoView>,
}

impl View for CommandInfo {
    type V = CommandInfoView;

    open spec fn view(&self) -> CommandInfoView {
        CommandInfoView {
            name: self.name@,
            description: self.description@,
            option: match self.option {
                Some(o) => Some(o@),
                None => None,
            },
        }
    }
}

impl CommandInfoView {
    /// The declaration of a command that takes no option.
    pub open spec fn plain(name: Seq<char>, description: Seq<char>) -> CommandInfoView {
        CommandInfoView { name, description, option: None }
    }

    /// The declaration of a command that takes one option.
    pub open spec fn with_option(
        name: Seq<char>,
        description: Seq<char>,
        kind: CommandOptionType,
        option_name: Seq<char>,
        option_description: Seq<char>,
        required: bool,
    ) -> CommandInfoView {
        CommandInfoView {
            name,
            description,
            option: Some(
                CommandOptionInfoView {
                    kind,
                    name: option_name,
                    description: option_description,
                    required,
                },
            ),
        }
    }
}

impl CommandInfo {
    /// Declares a command that takes no option.
    pub fn plain(name: &str, description: &str) -> (r: CommandInfo)
        ensures
            r@ == CommandInfoView::plain(name@, description@),
    {
        CommandInfo {
            name: String::from_str(name),
            description: String::from_str(description),
            option: None,
        }
    }

    /// Declares a command that takes one option.
    pub fn with_option(
        name: &str,
        description: &str,
        kind: CommandOptionType,
        option_name: &str,
        option_description: &str,
        required: bool,
    ) -> (r: CommandInfo)
        ensures
            r@ == CommandInfoView::with_option(
                name@,
                description@,
                kind,
                option_name@,
                option_description@,
                required,
            ),
    {
        CommandInfo {
            name: String::from_str(name),
            description: String::from_str(description),
            option: Some(
                CommandOptionInfo {
                    kind,
                    name: String::from_str(option_name),
                    description: String::from_str(option_description),
                    required,
                },
            ),
        }
    }
}

} // verus!
