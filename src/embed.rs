//! A rich message as Discord renders it: title, fields, pictures, footer.
use vstd::prelude::*;
use crate::text::opt_view;

verus! {

/// A named line of an embed.
pub struct EmbedField {
    pub name: String,
    pub value: String,
    /// Whether Discord may lay it out beside its neighbours.
    pub inline: bool,
}

/// The small line at the bottom of an embed.
pub struct EmbedFooter {
    pub text: String,
    pub icon_url: String,
}

/// A rich message. A part left `None` is not sent.
pub struct Embed {
    pub title: Option<String>,
    pub description: Option<String>,
    /// Where the title links to.
    pub url: Option<String>,
    pub thumbnail: Option<String>,
    /// File name of an uploaded picture shown as the embed's image.
    pub attachment: Option<String>,
    pub fields: Vec<EmbedField>,
    pub footer: Option<EmbedFooter>,
}

pub struct FieldView {
    pub name: Seq<char>,
    pub value: Seq<char>,
    pub inline: bool,
}

pub struct FooterView {
    pub text: Seq<char>,
    pub icon_url: Seq<char>,
}

pub struct EmbedView {
    pub title: Option<Seq<char>>,
    pub description: Option<Seq<char>>,
    pub url: Option<Seq<char>>,
    pub thumbnail: Option<Seq<char>>,
    pub attachment: Option<Seq<char>>,
    pub fields: Seq<FieldView>,
    pub footer: Option<FooterView>,
}

/// A field as its view.
pub open spec fn field_view(name: Seq<char>, value: Seq<char>, inline: bool) -> FieldView {
    FieldView { name, value, inline }
}

impl View for EmbedField {
    type V = FieldView;

    open spec fn view(&self) -> FieldView {
        field_view(self.name@, self.value@, self.inline)
    }
}

impl View for EmbedFooter {
    type V = FooterView;

    open spec fn view(&self) -> FooterView {
        FooterView { text: self.text@, icon_url: self.icon_url@ }
    }
}

impl View for Embed {
    type V = EmbedView;

    open spec fn view(&self) -> EmbedView {
        EmbedView {
            title: opt_view(self.title),
            description: opt_view(self.description),
            url: opt_view(self.url),
            thumbnail: opt_view(self.thumbnail),
            attachment: opt_view(self.attachment),
            fields: self.fields@.map_values(|f: EmbedField| f@),
            footer: match self.footer {
                Some(f) => Some(f@),
                None => None,
            },
        }
    }
}

impl EmbedView {
    /// The embed with nothing set.
    pub open spec fn empty() -> EmbedView {
        EmbedView {
            title: None,
            description: None,
            url: None,
            thumbnail: None,
            attachment: None,
            fields: Seq::empty(),
            footer: None,
        }
    }
}

impl Embed {
    /// An embed with nothing set.
    pub fn new() -> (r: Embed)
        ensures
            r@ == EmbedView::empty(),
    {
        let r = Embed {
            title: None,
            description: None,
            url: None,
            thumbnail: None,
            attachment: None,
            fields: Vec::new(),
            footer: None,
        };
        assert(r@.fields =~= Seq::<FieldView>::empty());
        r
    }

    pub fn set_title(&mut self, title: String)
        ensures
            final(self)@ == (EmbedView { title: Some(title@), ..old(self)@ }),
    {
        self.title = Some(title);
    }

    pub fn set_description(&mut self, description: String)
        ensures
            final(self)@ == (EmbedView { description: Some(description@), ..old(self)@ }),
    {
        self.description = Some(description);
    }

    pub fn set_url(&mut self, url: String)
        ensures
            final(self)@ == (EmbedView { url: Some(url@), ..old(self)@ }),
    {
        self.url = Some(url);
    }

    pub fn set_thumbnail(&mut self, thumbnail: String)
        ensures
            final(self)@ == (EmbedView { thumbnail: Some(thumbnail@), ..old(self)@ }),
    {
        self.thumbnail = Some(thumbnail);
    }

    pub fn set_attachment(&mut self, file_name: String)
        ensures
            final(self)@ == (EmbedView { attachment: Some(file_name@), ..old(self)@ }),
    {
        self.attachment = Some(file_name);
    }

    pub fn set_footer(&mut self, text: String, icon_url: String)
        ensures
            final(self)@ == (EmbedView {
                footer: Some(FooterView { text: text@, icon_url: icon_url@ }),
                ..old(self)@
            }),
    {
        self.footer = Some(EmbedFooter { text, icon_url });
    }

    /// Adds a field after those already there.
    pub fn push_field(&mut self, name: String, value: String, inline: bool)
        ensures
            final(self)@ == (EmbedView {
                fields: old(self)@.fields.push(field_view(name@, value@, inline)),
                ..old(self)@
            }),
    {
        let ghost before = self.fields@;
        self.fields.push(EmbedField { name, value, inline });
        assert(self.fields@.map_values(|f: EmbedField| f@) =~= before.map_values(
            |f: EmbedField| f@,
        ).push(field_view(name@, value@, inline)));
    }
}

} // verus!
