use vstd::prelude::*;

use crate::click::{click_model, ClickEvent};
use crate::color::Color;
use crate::hover::{hover_model, HoverEvent};

verus! {

/// The formatting and interaction attributes of a text node. Each one is
/// optional: `None` means that the node inherits it from its context.
#[derive(Clone, Debug, PartialEq, Eq, Hash)]
pub struct Style {
    pub color: Option<Color>,
    pub bold: Option<bool>,
    pub italic: Option<bool>,
    pub underlined: Option<bool>,
    pub strikethrough: Option<bool>,
    pub obfuscated: Option<bool>,
    pub insertion: Option<String>,
    pub font: Option<String>,
    pub click_event: Option<ClickEvent>,
    pub hover_event: Option<HoverEvent>,
}

/// A click or hover event as a mathematical value: its action name and the
/// value it carries.
pub struct EventModel {
    pub action: Seq<char>,
    pub value: Seq<char>,
}

/// A style as a mathematical value.
pub struct StyleModel {
    pub color: Option<Color>,
    pub bold: Option<bool>,
    pub italic: Option<bool>,
    pub underlined: Option<bool>,
    pub strikethrough: Option<bool>,
    pub obfuscated: Option<bool>,
    pub insertion: Option<Seq<char>>,
    pub font: Option<Seq<char>>,
    pub click_event: Option<EventModel>,
    pub hover_event: Option<EventModel>,
}

pub open spec fn opt_string_model(o: Option<String>) -> Option<Seq<char>> {
    match o {
        Some(s) => Some(s@),
        None => None,
    }
}

impl View for Style {
    type V = StyleModel;

    open spec fn view(&self) -> StyleModel {
        StyleModel {
            color: self.color,
            bold: self.bold,
            italic: self.italic,
            underlined: self.underlined,
            strikethrough: self.strikethrough,
            obfuscated: self.obfuscated,
            insertion: opt_string_model(self.insertion),
            font: opt_string_model(self.font),
            click_event: match self.click_event {
                Some(e) => Some(click_model(e)),
                None => None,
            },
            hover_event: match self.hover_event {
                Some(e) => Some(hover_model(e)),
                None => None,
            },
        }
    }
}

/// The style with every attribute absent.
pub open spec fn empty_style() -> Style {
    Style {
        color: None,
        bold: None,
        italic: None,
        underlined: None,
        strikethrough: None,
        obfuscated: None,
        insertion: None,
        font: None,
        click_event: None,
        hover_event: None,
    }
}

impl Default for Style {
    fn default() -> (r: Style)
        ensures
            r == empty_style(),
    {
        Style {
            color: None,
            bold: None,
            italic: None,
            underlined: None,
            strikethrough: None,
            obfuscated: None,
            insertion: None,
            font: None,
            click_event: None,
            hover_event: None,
        }
    }
}

} // verus!
