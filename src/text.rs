use vstd::prelude::*;

use crate::click::ClickEvent;
use crate::color::{Color, NamedColor, RGBColor};
use crate::hover::HoverEvent;
use crate::style::{empty_style, opt_string_model, Style, StyleModel};

verus! {

/// A text node behind one indirection, so that nodes can hold lists of nodes.
#[derive(Debug, PartialEq, Eq, Hash)]
pub struct Text(pub Box<TextComponent>);

/// One text node: what it says and how it looks.
#[derive(Debug, PartialEq, Eq, Hash)]
pub struct TextComponent {
    /// The actual text.
    pub content: TextContent,
    /// Bold, italic, colour, click and hover events and the rest.
    pub style: Style,
}

/// The payload of a text node. Exactly one of the four shapes is active.
#[derive(Debug, PartialEq, Eq, Hash)]
pub enum TextContent {
    /// Literal text.
    Text { text: String },
    /// A translation key with the arguments to substitute into it.
    Translate { translate: String, with: Vec<Text> },
    /// The names of the entities that a selector finds.
    EntityNames { selector: String, separator: Option<String> },
    /// The key bound to a control.
    Keybind { keybind: String },
}

/// A text node as a mathematical value: lists of children are sequences.
pub struct TextModel {
    pub content: ContentModel,
    pub style: StyleModel,
}

/// The payload of a node as a mathematical value.
pub enum ContentModel {
    Text { text: Seq<char> },
    Translate { translate: Seq<char>, with: Seq<TextModel> },
    EntityNames { selector: Seq<char>, separator: Option<Seq<char>> },
    Keybind { keybind: Seq<char> },
}

pub open spec fn component_model(c: TextComponent) -> TextModel
    decreases c,
{
    TextModel { content: content_model(c.content), style: c.style@ }
}

pub open spec fn content_model(c: TextContent) -> ContentModel
    decreases c,
{
    match c {
        TextContent::Text { text } => ContentModel::Text { text: text@ },
        TextContent::Translate { translate, with } => ContentModel::Translate {
            translate: translate@,
            with: texts_model(with@),
        },
        TextContent::EntityNames { selector, separator } => ContentModel::EntityNames {
            selector: selector@,
            separator: opt_string_model(separator),
        },
        TextContent::Keybind { keybind } => ContentModel::Keybind { keybind: keybind@ },
    }
}

pub open spec fn texts_model(s: Seq<Text>) -> Seq<TextModel>
    decreases s,
{
    if s.len() == 0 {
        Seq::empty()
    } else {
        texts_model(s.subrange(0, s.len() - 1)).push(component_model(*s[s.len() - 1].0))
    }
}

pub proof fn lemma_texts_model_len(s: Seq<Text>)
    ensures
        texts_model(s).len() == s.len(),
    decreases s.len(),
{
    if s.len() > 0 {
        lemma_texts_model_len(s.subrange(0, s.len() - 1));
    }
}

pub proof fn lemma_texts_model_prefix(s: Seq<Text>, i: int)
    requires
        0 <= i < s.len(),
    ensures
        texts_model(s.subrange(0, i + 1)) == texts_model(s.subrange(0, i)).push(
            component_model(*s[i].0),
        ),
{
    assert(s.subrange(0, i + 1).subrange(0, i) =~= s.subrange(0, i));
}

pub proof fn lemma_texts_model_push(s: Seq<Text>, t: Text)
    ensures
        texts_model(s.push(t)) == texts_model(s).push(component_model(*t.0)),
{
    assert(s.push(t).subrange(0, s.len() as int) =~= s);
}

impl View for TextComponent {
    type V = TextModel;

    open spec fn view(&self) -> TextModel {
        component_model(*self)
    }
}

impl View for Text {
    type V = TextModel;

    open spec fn view(&self) -> TextModel {
        component_model(*self.0)
    }
}

impl TextComponent {
    /// A literal node with no style.
    pub fn text(text: &str) -> (r: Self)
        ensures
            r.content matches TextContent::Text { text: t } && t@ == text@,
            r.style == empty_style(),
    {
        TextComponent { content: TextContent::Text { text: text.to_owned() }, style: Style::default() }
    }

    /// A literal node with no style, taking the text by value.
    pub fn text_string(text: String) -> (r: Self)
        ensures
            r.content == (TextContent::Text { text }),
            r.style == empty_style(),
    {
        TextComponent { content: TextContent::Text { text }, style: Style::default() }
    }

    /// Sets the colour.
    pub fn color(self, color: Color) -> (r: Self)
        ensures
            r.content == self.content,
            r.style == (Style { color: Some(color), ..self.style }),
    {
        let mut r = self;
        r.style.color = Some(color);
        r
    }

    /// Sets a palette colour.
    pub fn color_named(self, color: NamedColor) -> (r: Self)
        ensures
            r.content == self.content,
            r.style == (Style { color: Some(Color::Named(color)), ..self.style }),
    {
        let mut r = self;
        r.style.color = Some(Color::Named(color));
        r
    }

    /// Sets an explicit colour.
    pub fn color_rgb(self, color: RGBColor) -> (r: Self)
        ensures
            r.content == self.content,
            r.style == (Style { color: Some(Color::Rgb(color)), ..self.style }),
    {
        let mut r = self;
        r.style.color = Some(Color::Rgb(color));
        r
    }

    /// Makes the text bold.
    pub fn bold(self) -> (r: Self)
        ensures
            r.content == self.content,
            r.style == (Style { bold: Some(true), ..self.style }),
    {
        let mut r = self;
        r.style.bold = Some(true);
        r
    }

    /// Makes the text italic.
    pub fn italic(self) -> (r: Self)
        ensures
            r.content == self.content,
            r.style == (Style { italic: Some(true), ..self.style }),
    {
        let mut r = self;
        r.style.italic = Some(true);
        r
    }

    /// Makes the text underlined.
    pub fn underlined(self) -> (r: Self)
        ensures
            r.content == self.content,
            r.style == (Style { underlined: Some(true), ..self.style }),
    {
        let mut r = self;
        r.style.underlined = Some(true);
        r
    }

    /// Strikes the text through.
    pub fn strikethrough(self) -> (r: Self)
        ensures
            r.content == self.content,
            r.style == (Style { strikethrough: Some(true), ..self.style }),
    {
        let mut r = self;
        r.style.strikethrough = Some(true);
        r
    }

    /// Makes the text obfuscated.
    pub fn obfuscated(self) -> (r: Self)
        ensures
            r.content == self.content,
            r.style == (Style { obfuscated: Some(true), ..self.style }),
    {
        let mut r = self;
        r.style.obfuscated = Some(true);
        r
    }

    /// When a player shift-clicks the text, this string is inserted into
    /// their chat input, after what they have already typed.
    pub fn insertion(self, text: String) -> (r: Self)
        ensures
            r.content == self.content,
            r.style == (Style { insertion: Some(text), ..self.style }),
    {
        let mut r = self;
        r.style.insertion = Some(text);
        r
    }

    /// What happens when a player clicks the text (in chat only).
    pub fn click_event(self, event: ClickEvent) -> (r: Self)
        ensures
            r.content == self.content,
            r.style == (Style { click_event: Some(event), ..self.style }),
    {
        let mut r = self;
        r.style.click_event = Some(event);
        r
    }

    /// The tooltip shown when a player hovers over the text.
    pub fn hover_event(self, event: HoverEvent) -> (r: Self)
        ensures
            r.content == self.content,
            r.style == (Style { hover_event: Some(event), ..self.style }),
    {
        let mut r = self;
        r.style.hover_event = Some(event);
        r
    }

    /// The font of the text, as a resource identifier such as
    /// `minecraft:default` or `minecraft:uniform`.
    pub fn font(self, identifier: String) -> (r: Self)
        ensures
            r.content == self.content,
            r.style == (Style { font: Some(identifier), ..self.style }),
    {
        let mut r = self;
        r.style.font = Some(identifier);
        r
    }
}

} // verus!
