use vstd::prelude::*;

use crate::style::EventModel;
use crate::value::same_text;

verus! {

/// The tooltip shown when a player hovers over a piece of text.
#[derive(Clone, Debug, PartialEq, Eq, Hash)]
pub enum HoverEvent {
    /// Shows a line of text.
    ShowText(String),
    /// Shows an item, given by its identifier.
    ShowItem(String),
    /// Shows an entity, given by its identifier.
    ShowEntity(String),
}

/// The action name of a hover event in the structural form.
pub open spec fn hover_action(e: HoverEvent) -> Seq<char> {
    match e {
        HoverEvent::ShowText(_) => "show_text"@,
        HoverEvent::ShowItem(_) => "show_item"@,
        HoverEvent::ShowEntity(_) => "show_entity"@,
    }
}

/// The contents that a hover event carries.
pub open spec fn hover_contents(e: HoverEvent) -> String {
    match e {
        HoverEvent::ShowText(v) => v,
        HoverEvent::ShowItem(v) => v,
        HoverEvent::ShowEntity(v) => v,
    }
}

pub open spec fn hover_model(e: HoverEvent) -> EventModel {
    EventModel { action: hover_action(e), value: hover_contents(e)@ }
}

impl HoverEvent {
    /// The event with the given action name and contents, if the name is
    /// one of a hover event.
    pub fn from_action(action: &str, contents: String) -> (r: Option<HoverEvent>)
        ensures
            r is Some <==> (action@ == "show_text"@ || action@ == "show_item"@ || action@
                == "show_entity"@),
            r is Some ==> hover_model(r->Some_0) == (EventModel { action: action@, value: contents@ }),
    {
        if same_text(action, "show_text") {
            Some(HoverEvent::ShowText(contents))
        } else if same_text(action, "show_item") {
            Some(HoverEvent::ShowItem(contents))
        } else if same_text(action, "show_entity") {
            Some(HoverEvent::ShowEntity(contents))
        } else {
            None
        }
    }

    /// The action name of this event.
    pub fn action(&self) -> (r: &'static str)
        ensures
            r@ == hover_action(*self),
    {
        match self {
            HoverEvent::ShowText(_) => "show_text",
            HoverEvent::ShowItem(_) => "show_item",
            HoverEvent::ShowEntity(_) => "show_entity",
        }
    }

    /// The contents this event carries.
    pub fn contents(&self) -> (r: &String)
        ensures
            *r == hover_contents(*self),
    {
        match self {
            HoverEvent::ShowText(v) => v,
            HoverEvent::ShowItem(v) => v,
            HoverEvent::ShowEntity(v) => v,
        }
    }
}

} // verus!
