use vstd::prelude::*;

use crate::style::EventModel;
use crate::value::same_text;

verus! {

/// What happens when a player clicks a piece of text.
#[derive(Clone, Debug, PartialEq, Eq, Hash)]
pub enum ClickEvent {
    /// Opens the address in the player's browser.
    OpenUrl(String),
    /// Runs the command as if the player had typed it.
    RunCommand(String),
    /// Puts the command into the player's chat input.
    SuggestCommand(String),
    /// Turns a book to the given page.
    ChangePage(String),
    /// Copies the value to the player's clipboard.
    CopyToClipboard(String),
}

/// The action name of a click event in the structural form.
pub open spec fn click_action(e: ClickEvent) -> Seq<char> {
    match e {
        ClickEvent::OpenUrl(_) => "open_url"@,
        ClickEvent::RunCommand(_) => "run_command"@,
        ClickEvent::SuggestCommand(_) => "suggest_command"@,
        ClickEvent::ChangePage(_) => "change_page"@,
        ClickEvent::CopyToClipboard(_) => "copy_to_clipboard"@,
    }
}

/// The value that a click event carries.
pub open spec fn click_value(e: ClickEvent) -> String {
    match e {
        ClickEvent::OpenUrl(v) => v,
        ClickEvent::RunCommand(v) => v,
        ClickEvent::SuggestCommand(v) => v,
        ClickEvent::ChangePage(v) => v,
        ClickEvent::CopyToClipboard(v) => v,
    }
}

pub open spec fn click_model(e: ClickEvent) -> EventModel {
    EventModel { action: click_action(e), value: click_value(e)@ }
}

impl ClickEvent {
    /// The event with the given action name and value, if the name is one
    /// of a click event.
    pub fn from_action(action: &str, value: String) -> (r: Option<ClickEvent>)
        ensures
            r is Some <==> (action@ == "open_url"@ || action@ == "run_command"@ || action@
                == "suggest_command"@ || action@ == "change_page"@ || action@
                == "copy_to_clipboard"@),
            r is Some ==> click_model(r->Some_0) == (EventModel { action: action@, value: value@ }),
    {
        if same_text(action, "open_url") {
            Some(ClickEvent::OpenUrl(value))
        } else if same_text(action, "run_command") {
            Some(ClickEvent::RunCommand(value))
        } else if same_text(action, "suggest_command") {
            Some(ClickEvent::SuggestCommand(value))
        } else if same_text(action, "change_page") {
            Some(ClickEvent::ChangePage(value))
        } else if same_text(action, "copy_to_clipboard") {
            Some(ClickEvent::CopyToClipboard(value))
        } else {
            None
        }
    }

    /// The action name of this event.
    pub fn action(&self) -> (r: &'static str)
        ensures
            r@ == click_action(*self),
    {
        match self {
            ClickEvent::OpenUrl(_) => "open_url",
            ClickEvent::RunCommand(_) => "run_command",
            ClickEvent::SuggestCommand(_) => "suggest_command",
            ClickEvent::ChangePage(_) => "change_page",
            ClickEvent::CopyToClipboard(_) => "copy_to_clipboard",
        }
    }

    /// The value this event carries.
    pub fn value(&self) -> (r: &String)
        ensures
            *r == click_value(*self),
    {
        match self {
            ClickEvent::OpenUrl(v) => v,
            ClickEvent::RunCommand(v) => v,
            ClickEvent::SuggestCommand(v) => v,
            ClickEvent::ChangePage(v) => v,
            ClickEvent::CopyToClipboard(v) => v,
        }
    }
}

} // verus!
