use vstd::prelude::*;
use vstd::string::{StrSliceExecFns, StringExecFns};

use crate::value::same_text;

verus! {

/// The sixteen colours of the game's palette.
#[derive(Clone, Copy, Debug, PartialEq, Eq, Hash, Structural)]
pub enum NamedColor {
    Black,
    DarkBlue,
    DarkGreen,
    DarkAqua,
    DarkRed,
    DarkPurple,
    Gold,
    Gray,
    DarkGray,
    Blue,
    Green,
    Aqua,
    Red,
    LightPurple,
    Yellow,
    White,
}

/// An explicit red, green and blue triple.
#[derive(Clone, Copy, Debug, PartialEq, Eq, Hash, Structural)]
pub struct RGBColor {
    pub red: u8,
    pub green: u8,
    pub blue: u8,
}

/// The colour of a text node: a palette entry or an explicit triple.
#[derive(Clone, Copy, Debug, PartialEq, Eq, Hash, Structural)]
pub enum Color {
    Named(NamedColor),
    Rgb(RGBColor),
}

/// The name under which a palette colour appears in the structural form.
pub open spec fn named_color_key(c: NamedColor) -> Seq<char> {
    match c {
        NamedColor::Black => "black"@,
        NamedColor::DarkBlue => "dark_blue"@,
        NamedColor::DarkGreen => "dark_green"@,
        NamedColor::DarkAqua => "dark_aqua"@,
        NamedColor::DarkRed => "dark_red"@,
        NamedColor::DarkPurple => "dark_purple"@,
        NamedColor::Gold => "gold"@,
        NamedColor::Gray => "gray"@,
        NamedColor::DarkGray => "dark_gray"@,
        NamedColor::Blue => "blue"@,
        NamedColor::Green => "green"@,
        NamedColor::Aqua => "aqua"@,
        NamedColor::Red => "red"@,
        NamedColor::LightPurple => "light_purple"@,
        NamedColor::Yellow => "yellow"@,
        NamedColor::White => "white"@,
    }
}

/// The name under which the terminal colouring library knows the colour
/// that a palette entry is shown with on a console.
pub open spec fn named_color_console(c: NamedColor) -> Seq<char> {
    match c {
        NamedColor::Black => "black"@,
        NamedColor::DarkBlue => "blue"@,
        NamedColor::DarkGreen => "green"@,
        NamedColor::DarkAqua => "cyan"@,
        NamedColor::DarkRed => "red"@,
        NamedColor::DarkPurple => "magenta"@,
        NamedColor::Gold => "yellow"@,
        NamedColor::Gray => "white"@,
        NamedColor::DarkGray => "bright black"@,
        NamedColor::Blue => "bright blue"@,
        NamedColor::Green => "bright green"@,
        NamedColor::Aqua => "bright cyan"@,
        NamedColor::Red => "bright red"@,
        NamedColor::LightPurple => "bright magenta"@,
        NamedColor::Yellow => "bright yellow"@,
        NamedColor::White => "bright white"@,
    }
}

/// The red, green and blue components of a palette colour.
pub open spec fn named_color_rgb(c: NamedColor) -> (u8, u8, u8) {
    match c {
        NamedColor::Black => (0, 0, 0),
        NamedColor::DarkBlue => (0, 0, 170),
        NamedColor::DarkGreen => (0, 170, 0),
        NamedColor::DarkAqua => (0, 170, 170),
        NamedColor::DarkRed => (170, 0, 0),
        NamedColor::DarkPurple => (170, 0, 170),
        NamedColor::Gold => (255, 170, 0),
        NamedColor::Gray => (170, 170, 170),
        NamedColor::DarkGray => (85, 85, 85),
        NamedColor::Blue => (85, 85, 255),
        NamedColor::Green => (85, 255, 85),
        NamedColor::Aqua => (85, 255, 255),
        NamedColor::Red => (255, 85, 85),
        NamedColor::LightPurple => (255, 85, 255),
        NamedColor::Yellow => (255, 255, 85),
        NamedColor::White => (255, 255, 255),
    }
}

impl NamedColor {
    /// The console colour name of this palette entry.
    pub fn console_name(&self) -> (r: &'static str)
        ensures
            r@ == named_color_console(*self),
    {
        proof {
            reveal_strlit("black");
            reveal_strlit("blue");
            reveal_strlit("green");
            reveal_strlit("cyan");
            reveal_strlit("red");
            reveal_strlit("magenta");
            reveal_strlit("yellow");
            reveal_strlit("white");
            reveal_strlit("bright black");
            reveal_strlit("bright blue");
            reveal_strlit("bright green");
            reveal_strlit("bright cyan");
            reveal_strlit("bright red");
            reveal_strlit("bright magenta");
            reveal_strlit("bright yellow");
            reveal_strlit("bright white");
        }
        match self {
            NamedColor::Black => "black",
            NamedColor::DarkBlue => "blue",
            NamedColor::DarkGreen => "green",
            NamedColor::DarkAqua => "cyan",
            NamedColor::DarkRed => "red",
            NamedColor::DarkPurple => "magenta",
            NamedColor::Gold => "yellow",
            NamedColor::Gray => "white",
            NamedColor::DarkGray => "bright black",
            NamedColor::Blue => "bright blue",
            NamedColor::Green => "bright green",
            NamedColor::Aqua => "bright cyan",
            NamedColor::Red => "bright red",
            NamedColor::LightPurple => "bright magenta",
            NamedColor::Yellow => "bright yellow",
            NamedColor::White => "bright white",
        }
    }

    /// The structural name of this colour.
    pub fn key(&self) -> (r: &'static str)
        ensures
            r@ == named_color_key(*self),
    {
        proof {
            reveal_strlit("black");
            reveal_strlit("dark_blue");
            reveal_strlit("dark_green");
            reveal_strlit("dark_aqua");
            reveal_strlit("dark_red");
            reveal_strlit("dark_purple");
            reveal_strlit("gold");
            reveal_strlit("gray");
            reveal_strlit("dark_gray");
            reveal_strlit("blue");
            reveal_strlit("green");
            reveal_strlit("aqua");
            reveal_strlit("red");
            reveal_strlit("light_purple");
            reveal_strlit("yellow");
            reveal_strlit("white");
        }
        match self {
            NamedColor::Black => "black",
            NamedColor::DarkBlue => "dark_blue",
            NamedColor::DarkGreen => "dark_green",
            NamedColor::DarkAqua => "dark_aqua",
            NamedColor::DarkRed => "dark_red",
            NamedColor::DarkPurple => "dark_purple",
            NamedColor::Gold => "gold",
            NamedColor::Gray => "gray",
            NamedColor::DarkGray => "dark_gray",
            NamedColor::Blue => "blue",
            NamedColor::Green => "green",
            NamedColor::Aqua => "aqua",
            NamedColor::Red => "red",
            NamedColor::LightPurple => "light_purple",
            NamedColor::Yellow => "yellow",
            NamedColor::White => "white",
        }
    }

    /// The red, green and blue components of this colour.
    pub fn rgb(&self) -> (r: RGBColor)
        ensures
            (r.red, r.green, r.blue) == named_color_rgb(*self),
    {
        let (red, green, blue): (u8, u8, u8) = match self {
            NamedColor::Black => (0, 0, 0),
            NamedColor::DarkBlue => (0, 0, 170),
            NamedColor::DarkGreen => (0, 170, 0),
            NamedColor::DarkAqua => (0, 170, 170),
            NamedColor::DarkRed => (170, 0, 0),
            NamedColor::DarkPurple => (170, 0, 170),
            NamedColor::Gold => (255, 170, 0),
            NamedColor::Gray => (170, 170, 170),
            NamedColor::DarkGray => (85, 85, 85),
            NamedColor::Blue => (85, 85, 255),
            NamedColor::Green => (85, 255, 85),
            NamedColor::Aqua => (85, 255, 255),
            NamedColor::Red => (255, 85, 85),
            NamedColor::LightPurple => (255, 85, 255),
            NamedColor::Yellow => (255, 255, 85),
            NamedColor::White => (255, 255, 255),
        };
        RGBColor { red, green, blue }
    }
}

/// The lower-case hexadecimal digits.
pub open spec fn hex_digits() -> Seq<char> {
    seq!['0', '1', '2', '3', '4', '5', '6', '7', '8', '9', 'a', 'b', 'c', 'd', 'e', 'f']
}

/// The value of a hexadecimal digit, in either case.
pub open spec fn hex_value(c: char) -> Option<u8> {
    if '0' <= c && c <= '9' {
        Some((c as u32 - '0' as u32) as u8)
    } else if 'a' <= c && c <= 'f' {
        Some((c as u32 - 'a' as u32 + 10) as u8)
    } else if 'A' <= c && c <= 'F' {
        Some((c as u32 - 'A' as u32 + 10) as u8)
    } else {
        None
    }
}

/// A byte as two hexadecimal digits.
pub open spec fn hex_byte(b: u8) -> Seq<char> {
    seq![hex_digits()[(b / 16) as int], hex_digits()[(b % 16) as int]]
}

/// The structural form of a colour: its palette name, or `#rrggbb`.
pub open spec fn color_text(c: Color) -> Seq<char> {
    match c {
        Color::Named(n) => named_color_key(n),
        Color::Rgb(rgb) => seq!['#'] + hex_byte(rgb.red) + hex_byte(rgb.green) + hex_byte(rgb.blue),
    }
}

/// The palette colour with the given structural name.
pub open spec fn named_from_key(s: Seq<char>) -> Option<NamedColor> {
    if s == "black"@ {
        Some(NamedColor::Black)
    } else if s == "dark_blue"@ {
        Some(NamedColor::DarkBlue)
    } else if s == "dark_green"@ {
        Some(NamedColor::DarkGreen)
    } else if s == "dark_aqua"@ {
        Some(NamedColor::DarkAqua)
    } else if s == "dark_red"@ {
        Some(NamedColor::DarkRed)
    } else if s == "dark_purple"@ {
        Some(NamedColor::DarkPurple)
    } else if s == "gold"@ {
        Some(NamedColor::Gold)
    } else if s == "gray"@ {
        Some(NamedColor::Gray)
    } else if s == "dark_gray"@ {
        Some(NamedColor::DarkGray)
    } else if s == "blue"@ {
        Some(NamedColor::Blue)
    } else if s == "green"@ {
        Some(NamedColor::Green)
    } else if s == "aqua"@ {
        Some(NamedColor::Aqua)
    } else if s == "red"@ {
        Some(NamedColor::Red)
    } else if s == "light_purple"@ {
        Some(NamedColor::LightPurple)
    } else if s == "yellow"@ {
        Some(NamedColor::Yellow)
    } else if s == "white"@ {
        Some(NamedColor::White)
    } else {
        None
    }
}

/// The byte written by the two hexadecimal digits at `i` and `i + 1`.
pub open spec fn hex_pair(s: Seq<char>, i: int) -> Option<u8> {
    match (hex_value(s[i]), hex_value(s[i + 1])) {
        (Some(h), Some(l)) => Some((h * 16 + l) as u8),
        _ => None,
    }
}

/// The colour that a structural colour string names: `#` and six
/// hexadecimal digits, or a palette name.
pub open spec fn parse_color(s: Seq<char>) -> Option<Color> {
    if s.len() == 7 && s[0] == '#' {
        match (hex_pair(s, 1), hex_pair(s, 3), hex_pair(s, 5)) {
            (Some(red), Some(green), Some(blue)) => Some(Color::Rgb(RGBColor { red, green, blue })),
            _ => None,
        }
    } else {
        match named_from_key(s) {
            Some(n) => Some(Color::Named(n)),
            None => None,
        }
    }
}

fn hex_digit_str(n: u8) -> (r: &'static str)
    requires
        n < 16,
    ensures
        r@ == seq![hex_digits()[n as int]],
{
    proof {
            reveal_strlit("0");
            reveal_strlit("1");
            reveal_strlit("2");
            reveal_strlit("3");
            reveal_strlit("4");
            reveal_strlit("5");
            reveal_strlit("6");
            reveal_strlit("7");
            reveal_strlit("8");
            reveal_strlit("9");
            reveal_strlit("a");
            reveal_strlit("b");
            reveal_strlit("c");
            reveal_strlit("d");
            reveal_strlit("e");
            reveal_strlit("f");
    }
    match n {
            0 => "0",
            1 => "1",
            2 => "2",
            3 => "3",
            4 => "4",
            5 => "5",
            6 => "6",
            7 => "7",
            8 => "8",
            9 => "9",
            10 => "a",
            11 => "b",
            12 => "c",
            13 => "d",
            14 => "e",
            15 => "f",
        _ => "f",
    }
}

fn hex_char_value(c: char) -> (r: Option<u8>)
    ensures
        r == hex_value(c),
{
    if '0' <= c && c <= '9' {
        Some((c as u32 - '0' as u32) as u8)
    } else if 'a' <= c && c <= 'f' {
        Some((c as u32 - 'a' as u32 + 10) as u8)
    } else if 'A' <= c && c <= 'F' {
        Some((c as u32 - 'A' as u32 + 10) as u8)
    } else {
        None
    }
}

fn hex_pair_at(s: &str, i: usize) -> (r: Option<u8>)
    requires
        i + 1 < s@.len(),
        i < 7,
    ensures
        r == hex_pair(s@, i as int),
{
    let h = hex_char_value(s.get_char(i));
    let l = hex_char_value(s.get_char(i + 1));
    match (h, l) {
        (Some(h), Some(l)) => Some(h * 16 + l),
        _ => None,
    }
}

impl NamedColor {
    /// The palette colour with the given structural name, if any.
    pub fn from_key(s: &str) -> (r: Option<NamedColor>)
        ensures
            r == named_from_key(s@),
    {
        if same_text(s, "black") {
            Some(NamedColor::Black)
        } else if same_text(s, "dark_blue") {
            Some(NamedColor::DarkBlue)
        } else if same_text(s, "dark_green") {
            Some(NamedColor::DarkGreen)
        } else if same_text(s, "dark_aqua") {
            Some(NamedColor::DarkAqua)
        } else if same_text(s, "dark_red") {
            Some(NamedColor::DarkRed)
        } else if same_text(s, "dark_purple") {
            Some(NamedColor::DarkPurple)
        } else if same_text(s, "gold") {
            Some(NamedColor::Gold)
        } else if same_text(s, "gray") {
            Some(NamedColor::Gray)
        } else if same_text(s, "dark_gray") {
            Some(NamedColor::DarkGray)
        } else if same_text(s, "blue") {
            Some(NamedColor::Blue)
        } else if same_text(s, "green") {
            Some(NamedColor::Green)
        } else if same_text(s, "aqua") {
            Some(NamedColor::Aqua)
        } else if same_text(s, "red") {
            Some(NamedColor::Red)
        } else if same_text(s, "light_purple") {
            Some(NamedColor::LightPurple)
        } else if same_text(s, "yellow") {
            Some(NamedColor::Yellow)
        } else if same_text(s, "white") {
            Some(NamedColor::White)
        } else {
            None
        }
    }
}

impl Color {
    /// The structural form of this colour.
    pub fn to_text(&self) -> (r: String)
        ensures
            r@ == color_text(*self),
    {
        match self {
            Color::Named(n) => n.key().to_owned(),
            Color::Rgb(rgb) => {
                proof {
                    reveal_strlit("#");
                }
                let r = "#".to_owned().concat(hex_digit_str(rgb.red / 16)).concat(
                    hex_digit_str(rgb.red % 16),
                ).concat(hex_digit_str(rgb.green / 16)).concat(hex_digit_str(rgb.green % 16)).concat(
                    hex_digit_str(rgb.blue / 16),
                ).concat(hex_digit_str(rgb.blue % 16));
                assert(r@ =~= color_text(*self));
                r
            },
        }
    }

    /// Reads a structural colour string.
    pub fn from_text(s: &str) -> (r: Option<Color>)
        ensures
            r == parse_color(s@),
    {
        if s.unicode_len() == 7 && s.get_char(0) == '#' {
            match (hex_pair_at(s, 1), hex_pair_at(s, 3), hex_pair_at(s, 5)) {
                (Some(red), Some(green), Some(blue)) => Some(Color::Rgb(RGBColor { red, green, blue })),
                _ => None,
            }
        } else {
            match NamedColor::from_key(s) {
                Some(n) => Some(Color::Named(n)),
                None => None,
            }
        }
    }
}

/// Reading the structural form of a colour gives the colour back.
pub proof fn lemma_color_text_round_trip(c: Color)
    ensures
        parse_color(color_text(c)) == Some(c),
{
    match c {
        Color::Named(n) => {
            reveal_strlit("black");
            reveal_strlit("dark_blue");
            reveal_strlit("dark_green");
            reveal_strlit("dark_aqua");
            reveal_strlit("dark_red");
            reveal_strlit("dark_purple");
            reveal_strlit("gold");
            reveal_strlit("gray");
            reveal_strlit("dark_gray");
            reveal_strlit("blue");
            reveal_strlit("green");
            reveal_strlit("aqua");
            reveal_strlit("red");
            reveal_strlit("light_purple");
            reveal_strlit("yellow");
            reveal_strlit("white");
        },
        Color::Rgb(rgb) => {
            lemma_hex_byte(rgb.red);
            lemma_hex_byte(rgb.green);
            lemma_hex_byte(rgb.blue);
            let t = color_text(c);
            assert(t.subrange(1, 3) == hex_byte(rgb.red));
            assert(t[1] == hex_byte(rgb.red)[0] && t[2] == hex_byte(rgb.red)[1]);
            assert(t[3] == hex_byte(rgb.green)[0] && t[4] == hex_byte(rgb.green)[1]);
            assert(t[5] == hex_byte(rgb.blue)[0] && t[6] == hex_byte(rgb.blue)[1]);
        },
    }
}

proof fn lemma_hex_digit(n: u8)
    requires
        n < 16,
    ensures
        hex_value(hex_digits()[n as int]) == Some(n),
{
}

proof fn lemma_hex_byte(b: u8)
    ensures
        hex_value(hex_byte(b)[0]) == Some(b / 16),
        hex_value(hex_byte(b)[1]) == Some(b % 16),
        (b / 16) * 16 + b % 16 == b,
{
    lemma_hex_digit(b / 16);
    lemma_hex_digit(b % 16);
}

} // verus!
