//! Replies as data: what a reply shows, before anything is sent.

use crate::constants::EMBED_COLOUR;
use crate::playback::opt_text;
use vstd::prelude::*;

verus! {

/// One named value of an embed.
#[derive(Debug, PartialEq, Eq)]
pub struct EmbedField {
    pub name: String,
    pub value: String,
    pub inline: bool,
}

/// The mathematical content of an [`EmbedField`].
pub struct EmbedFieldView {
    pub name: Seq<char>,
    pub value: Seq<char>,
    pub inline: bool,
}

impl View for EmbedField {
    type V = EmbedFieldView;

    open spec fn view(&self) -> EmbedFieldView {
        EmbedFieldView { name: self.name@, value: self.value@, inline: self.inline }
    }
}

impl EmbedField {
    /// A field with the given name and value.
    pub fn new(name: &str, value: String, inline: bool) -> (r: EmbedField)
        ensures
            r@ == field(name@, value@, inline),
    {
        EmbedField { name: String::from_str(name), value, inline }
    }
}

/// The field with the given name and value.
pub open spec fn field(name: Seq<char>, value: Seq<char>, inline: bool) -> EmbedFieldView {
    EmbedFieldView { name, value, inline }
}

/// Who an embed is shown to come from.
#[derive(Debug, PartialEq, Eq)]
pub struct EmbedAuthor {
    pub name: String,
    pub icon_url: String,
}

/// The mathematical content of an [`EmbedAuthor`].
pub struct EmbedAuthorView {
    pub name: Seq<char>,
    pub icon_url: Seq<char>,
}

impl View for EmbedAuthor {
    type V = EmbedAuthorView;

    open spec fn view(&self) -> EmbedAuthorView {
        EmbedAuthorView { name: self.name@, icon_url: self.icon_url@ }
    }
}

/// A button that opens an address.
#[derive(Debug, PartialEq, Eq)]
pub struct LinkButton {
    pub url: String,
    pub label: String,
}

/// The mathematical content of a [`LinkButton`].
pub struct LinkButtonView {
    pub url: Seq<char>,
    pub label: Seq<char>,
}

impl View for LinkButton {
    type V = LinkButtonView;

    open spec fn view(&self) -> LinkButtonView {
        LinkButtonView { url: self.url@, label: self.label@ }
    }
}

/// The framed part of a reply.
#[derive(Debug, PartialEq, Eq)]
pub struct Embed {
    pub title: Option<String>,
    pub description: Option<String>,
    pub colour: u32,
    pub image: Option<String>,
    pub thumbnail: Option<String>,
    pub author: Option<EmbedAuthor>,
    pub fields: Vec<EmbedField>,
    pub footer: Option<String>,
}

/// The mathematical content of an [`Embed`].
pub struct EmbedView {
    pub title: Option<Seq<char>>,
    pub description: Option<Seq<char>>,
    pub colour: u32,
    pub image: Option<Seq<char>>,
    pub thumbnail: Option<Seq<char>>,
    pub author: Option<EmbedAuthorView>,
    pub fields: Seq<EmbedFieldView>,
    pub footer: Option<Seq<char>>,
}

/// The fields of an embed as mathematical values, in order.
pub open spec fn fields_view(fields: Seq<EmbedField>) -> Seq<EmbedFieldView> {
    fields.map_values(|f: EmbedField| f@)
}

impl View for Embed {
    type V = EmbedView;

    open spec fn view(&self) -> EmbedView {
        EmbedView {
            title: opt_text(self.title),
            description: opt_text(self.description),
            colour: self.colour,
            image: opt_text(self.image),
            thumbnail: opt_text(self.thumbnail),
            author: match self.author {
                Some(a) => Some(a@),
                None => None,
            },
            fields: fields_view(self.fields@),
            footer: opt_text(self.footer),
        }
    }
}

impl EmbedView {
    /// An embed in the bot's colour that shows nothing yet.
    pub open spec fn blank() -> EmbedView {
        EmbedView {
            title: None,
            description: None,
            colour: EMBED_COLOUR,
            image: None,
            thumbnail: None,
            author: None,
            fields: Seq::empty(),
            footer: None,
        }
    }

    /// An embed that shows one line of text, as its title.
    pub open spec fn text(title: Seq<char>) -> EmbedView {
        EmbedView { title: Some(title), ..EmbedView::blank() }
    }
}

impl Embed {
    /// An embed in the bot's colour that shows nothing yet.
    pub fn new() -> (r: Embed)
        ensures
            r@ == EmbedView::blank(),
    {
        let r = Embed {
            title: None,
            description: None,
            colour: EMBED_COLOUR,
            image: None,
            thumbnail: None,
            author: None,
            fields: Vec::new(),
            footer: None,
        };
        proof {
            assert(r@.fields =~= Seq::empty());
        }
        r
    }

    /// Adds a field behind those that are there.
    pub fn push_field(&mut self, name: &str, value: String, inline: bool)
        ensures
            final(self)@ == (EmbedView {
                fields: old(self)@.fields.push(field(name@, value@, inline)),
                ..old(self)@
            }),
    {
        let f = EmbedField::new(name, value, inline);
        self.fields.push(f);
        proof {
            assert(fields_view(self.fields@) =~= fields_view(old(self).fields@).push(f@));
        }
    }
}

/// A whole reply: an embed and, below it, at most one link button.
#[derive(Debug, PartialEq, Eq)]
pub struct Reply {
    pub embed: Embed,
    pub button: Option<LinkButton>,
}

/// The mathematical content of a [`Reply`].
pub struct ReplyView {
    pub embed: EmbedView,
    pub button: Option<LinkButtonView>,
}

impl View for Reply {
    type V = ReplyView;

    open spec fn view(&self) -> ReplyView {
        ReplyView {
            embed: self.embed@,
            button: match self.button {
                Some(b) => Some(b@),
                None => None,
            },
        }
    }
}

impl ReplyView {
    /// The reply that shows one line of text and nothing else.
    pub open spec fn text(title: Seq<char>) -> ReplyView {
        ReplyView { embed: EmbedView::text(title), button: None }
    }
}

/// The reply that shows `text` and nothing else.
pub fn text_response(text: &str) -> (r: Reply)
    ensures
        r@ == ReplyView::text(text@),
{
    let mut embed = Embed::new();
    embed.title = Some(String::from_str(text));
    Reply { embed, button: None }
}

} // verus!
