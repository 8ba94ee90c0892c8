//! Rendering a text node as a string decorated with terminal escapes.
use vstd::prelude::*;
use vstd::string::StringExecFns;

use colored::Colorize;

use crate::click::ClickEvent;
use crate::color::{named_color_console, Color};
use crate::style::Style;
use crate::text::{TextComponent, TextContent};

verus! {

/// The sequence that ends every decoration.
pub open spec fn reset_seq() -> Seq<char> {
    seq!['\x1b', '[', '0', 'm']
}

/// The sequence that starts a decoration with the given parameter list.
pub open spec fn sgr_open(code: Seq<char>) -> Seq<char> {
    seq!['\x1b', '['] + code + seq!['m']
}

/// `s` with `open` written again after each reset inside it, so that an
/// inner decoration does not end the outer one.
pub open spec fn reapply_after_resets(s: Seq<char>, open: Seq<char>) -> Seq<char>
    decreases s.len(),
{
    if s.len() < 4 {
        s
    } else if s.subrange(0, 4) == reset_seq() {
        reset_seq() + open + reapply_after_resets(s.subrange(4, s.len() as int), open)
    } else {
        seq![s[0]] + reapply_after_resets(s.subrange(1, s.len() as int), open)
    }
}

/// `s` decorated with the parameter list `code`.
pub open spec fn sgr(code: Seq<char>, s: Seq<char>) -> Seq<char> {
    sgr_open(code) + reapply_after_resets(s, sgr_open(code)) + reset_seq()
}

/// The colour names of the colouring library, in lower case.
pub open spec fn is_console_color_name(name: Seq<char>) -> bool {
    ||| name == "black"@
    ||| name == "red"@
    ||| name == "green"@
    ||| name == "yellow"@
    ||| name == "blue"@
    ||| name == "magenta"@
    ||| name == "cyan"@
    ||| name == "white"@
    ||| name == "bright black"@
    ||| name == "bright red"@
    ||| name == "bright green"@
    ||| name == "bright yellow"@
    ||| name == "bright blue"@
    ||| name == "bright magenta"@
    ||| name == "bright cyan"@
    ||| name == "bright white"@
}

/// The foreground parameter of each colour name of the colouring library.
pub open spec fn fg_code(name: Seq<char>) -> Seq<char> {
    if name == "black"@ { "30"@ }
    else if name == "red"@ { "31"@ }
    else if name == "green"@ { "32"@ }
    else if name == "yellow"@ { "33"@ }
    else if name == "blue"@ { "34"@ }
    else if name == "magenta"@ { "35"@ }
    else if name == "cyan"@ { "36"@ }
    else if name == "white"@ { "37"@ }
    else if name == "bright black"@ { "90"@ }
    else if name == "bright red"@ { "91"@ }
    else if name == "bright green"@ { "92"@ }
    else if name == "bright yellow"@ { "93"@ }
    else if name == "bright blue"@ { "94"@ }
    else if name == "bright magenta"@ { "95"@ }
    else if name == "bright cyan"@ { "96"@ }
    else { "97"@ }
}

/// One decoration step: colouring may be switched off where the program
/// runs, in which case the string is left as it is.
pub open spec fn painted(code: Seq<char>, s: Seq<char>, r: Seq<char>) -> bool {
    r == s || r == sgr(code, s)
}

/// Relies on colored's `bold`: parameter 1 around the string, or the string
/// itself where colouring is off.
#[verifier::external_body]
fn paint_bold(s: &str) -> (r: String)
    ensures
        painted("1"@, s@, r@),
{
    s.bold().to_string()
}

/// Relies on colored's `italic`: parameter 3, or the string itself.
#[verifier::external_body]
fn paint_italic(s: &str) -> (r: String)
    ensures
        painted("3"@, s@, r@),
{
    s.italic().to_string()
}

/// Relies on colored's `underline`: parameter 4, or the string itself.
#[verifier::external_body]
fn paint_underline(s: &str) -> (r: String)
    ensures
        painted("4"@, s@, r@),
{
    s.underline().to_string()
}

/// Relies on colored's `strikethrough`: parameter 9, or the string itself.
#[verifier::external_body]
fn paint_strikethrough(s: &str) -> (r: String)
    ensures
        painted("9"@, s@, r@),
{
    s.strikethrough().to_string()
}

/// Relies on colored's `color` with a colour name: the foreground parameter
/// of that name, or the string itself.
#[verifier::external_body]
fn paint_named(s: &str, name: &str) -> (r: String)
    requires
        is_console_color_name(name@),
    ensures
        painted(fg_code(name@), s@, r@),
{
    s.color(name).to_string()
}

/// Relies on colored's `truecolor`: some foreground parameter (a true colour
/// or, on terminals without it, the closest basic colour), or the string
/// itself.
#[verifier::external_body]
fn paint_rgb(s: &str, red: u8, green: u8, blue: u8) -> (r: String)
    ensures
        r@ == s@ || exists|code: Seq<char>| r@ == #[trigger] sgr(code, s@),
{
    s.truecolor(red, green, blue).to_string()
}

/// A terminal hyperlink to `url` whose visible label is `label`.
pub open spec fn hyperlink_seq(url: Seq<char>, label: Seq<char>) -> Seq<char> {
    seq!['\x1b', ']', '8', ';', ';'] + url + seq!['\x1b', '\\'] + label + seq![
        '\x1b',
        ']',
        '8',
        ';',
        ';',
        '\x1b',
        '\\',
    ]
}

/// Wraps `label` in a terminal hyperlink to `url`.
pub fn hyperlink(url: &str, label: &str) -> (r: String)
    ensures
        r@ == hyperlink_seq(url@, label@),
{
    let head = "\x1b]8;;";
    let mid = "\x1b\\";
    let tail = "\x1b]8;;\x1b\\";
    proof {
        reveal_strlit("\x1b]8;;");
        reveal_strlit("\x1b\\");
        reveal_strlit("\x1b]8;;\x1b\\");
    }
    let r = head.to_owned().concat(url).concat(mid).concat(label).concat(tail);
    assert(r@ =~= hyperlink_seq(url@, label@));
    r
}

/// The string that a node shows before any decoration: the literal text,
/// the translation key (its arguments are not substituted), the selector
/// (its separator is ignored) or the keybind.
pub open spec fn console_base(c: TextContent) -> String {
    match c {
        TextContent::Text { text } => text,
        TextContent::Translate { translate, .. } => translate,
        TextContent::EntityNames { selector, .. } => selector,
        TextContent::Keybind { keybind } => keybind,
    }
}

/// A decoration step that applies only when `on` holds.
pub open spec fn layer(on: bool, code: Seq<char>, s: Seq<char>, r: Seq<char>) -> bool {
    if on {
        painted(code, s, r)
    } else {
        r == s
    }
}

/// The colour step.
pub open spec fn color_layer(c: Option<Color>, s: Seq<char>, r: Seq<char>) -> bool {
    match c {
        None => r == s,
        Some(Color::Named(n)) => painted(fg_code(named_color_console(n)), s, r),
        Some(Color::Rgb(_)) => r == s || exists|code: Seq<char>| r == #[trigger] sgr(code, s),
    }
}

/// The decoration steps, innermost first: strikethrough, underline, italic,
/// bold, colour. Each one wraps the result of the one before.
pub open spec fn console_steps(
    style: Style,
    base: Seq<char>,
    s1: Seq<char>,
    s2: Seq<char>,
    s3: Seq<char>,
    s4: Seq<char>,
    s5: Seq<char>,
) -> bool {
    &&& layer(style.strikethrough is Some, "9"@, base, s1)
    &&& layer(style.underlined is Some, "4"@, s1, s2)
    &&& layer(style.italic is Some, "3"@, s2, s3)
    &&& layer(style.bold == Some(true), "1"@, s3, s4)
    &&& color_layer(style.color, s4, s5)
}

/// The outermost step: a hyperlink where the click event opens an address.
pub open spec fn linked(click: Option<ClickEvent>, s: Seq<char>) -> Seq<char> {
    match click {
        Some(ClickEvent::OpenUrl(url)) => hyperlink_seq(url@, s),
        _ => s,
    }
}

/// `r` is a console rendering of `c`.
pub open spec fn console_form(c: TextComponent, r: Seq<char>) -> bool {
    exists|s1: Seq<char>, s2: Seq<char>, s3: Seq<char>, s4: Seq<char>, s5: Seq<char>|
        #[trigger] console_steps(c.style, console_base(c.content)@, s1, s2, s3, s4, s5) && r
            == linked(c.style.click_event, s5)
}

impl TextComponent {
    /// Renders the node for a terminal: its base string, decorated from the
    /// inside out with strikethrough, underline, italic, bold and colour,
    /// and made a hyperlink where clicking it opens an address. Obfuscation,
    /// insertion, font and hover have no effect on a console.
    pub fn to_pretty_console(self) -> (r: String)
        ensures
            console_form(self, r@),
    {
        let ghost old_self = self;
        let style = self.style;
        let base = match self.content {
            TextContent::Text { text } => text,
            TextContent::Translate { translate, .. } => translate,
            TextContent::EntityNames { selector, .. } => selector,
            TextContent::Keybind { keybind } => keybind,
        };
        let ghost b = base@;
        assert(b == console_base(old_self.content)@);
        let s1 = if style.strikethrough.is_some() {
            paint_strikethrough(base.as_str())
        } else {
            base
        };
        let s2 = if style.underlined.is_some() {
            paint_underline(s1.as_str())
        } else {
            s1
        };
        let s3 = if style.italic.is_some() {
            paint_italic(s2.as_str())
        } else {
            s2
        };
        let s4 = if style.bold == Some(true) {
            paint_bold(s3.as_str())
        } else {
            s3
        };
        let s5 = match style.color {
            None => s4,
            Some(Color::Named(n)) => paint_named(s4.as_str(), n.console_name()),
            Some(Color::Rgb(c)) => paint_rgb(s4.as_str(), c.red, c.green, c.blue),
        };
        assert(console_steps(style, b, s1@, s2@, s3@, s4@, s5@));
        let r = match style.click_event {
            Some(ClickEvent::OpenUrl(url)) => hyperlink(url.as_str(), s5.as_str()),
            _ => s5,
        };
        assert(r@ == linked(old_self.style.click_event, s5@));
        r
    }
}

} // verus!
