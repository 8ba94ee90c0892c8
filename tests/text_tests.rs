use pumpkin_text::binary::EncodeError;
use pumpkin_text::click::ClickEvent;
use pumpkin_text::color::{Color, NamedColor, RGBColor};
use pumpkin_text::console::hyperlink;
use pumpkin_text::hover::HoverEvent;
use pumpkin_text::structural::DecodeError;
use pumpkin_text::style::Style;
use pumpkin_text::text::{Text, TextComponent, TextContent};
use pumpkin_text::value::Value;

fn s(x: &str) -> Value {
    Value::Str(x.to_string())
}

fn compound(entries: Vec<(&str, Value)>) -> Value {
    Value::Compound(entries.into_iter().map(|(k, v)| (k.to_string(), v)).collect())
}

fn translate(key: &str, with: Vec<TextComponent>) -> TextComponent {
    TextComponent {
        content: TextContent::Translate {
            translate: key.to_string(),
            with: with.into_iter().map(|c| Text(Box::new(c))).collect(),
        },
        style: Style::default(),
    }
}

#[test]
fn literal_round_trip_keeps_absent_fields_absent() {
    let c = TextComponent::text("hello").italic().font("minecraft:uniform".to_string());
    let v = c.to_value();
    let back = TextComponent::from_value(&v).unwrap();
    assert_eq!(back, TextComponent::text("hello").italic().font("minecraft:uniform".to_string()));
    assert_eq!(back.style.bold, None);
    assert_eq!(back.style.color, None);
    assert_eq!(back.style.click_event, None);
}

#[test]
fn literal_round_trip_with_every_style_field() {
    let make = || {
        TextComponent::text("all")
            .color_rgb(RGBColor { red: 18, green: 52, blue: 171 })
            .bold()
            .italic()
            .underlined()
            .strikethrough()
            .obfuscated()
            .insertion("ins".to_string())
            .font("minecraft:alt".to_string())
            .click_event(ClickEvent::RunCommand("/help".to_string()))
            .hover_event(HoverEvent::ShowText("tip".to_string()))
    };
    let back = TextComponent::from_value(&make().to_value()).unwrap();
    assert_eq!(back, make());
}

#[test]
fn literal_encodes_only_present_keys() {
    let v = TextComponent::text("hi").bold().to_value();
    assert_eq!(v, compound(vec![("text", s("hi")), ("bold", Value::Bool(true))]));
}

#[test]
fn binary_encoding_is_deterministic() {
    let make = || TextComponent::text("same").color_named(NamedColor::Gold).underlined();
    let a = make().encode().unwrap();
    let b = make().encode().unwrap();
    assert_eq!(a, b);
}

#[test]
fn binary_encoding_of_plain_literal() {
    let bytes = TextComponent::text("hi").encode().unwrap();
    assert_eq!(
        bytes,
        vec![10, 8, 0, 4, b't', b'e', b'x', b't', 0, 2, b'h', b'i', 0]
    );
}

#[test]
fn binary_encoding_of_bold_literal() {
    let bytes = TextComponent::text("a").bold().encode().unwrap();
    assert_eq!(
        bytes,
        vec![10, 8, 0, 4, b't', b'e', b'x', b't', 0, 1, b'a', 1, 0, 4, b'b', b'o', b'l', b'd', 1, 0]
    );
}

#[test]
fn binary_encoding_of_nested_list() {
    let c = translate("k", vec![TextComponent::text("x")]);
    let bytes = c.encode().unwrap();
    let mut expected = vec![10, 8, 0, 9];
    expected.extend_from_slice(b"translate");
    expected.extend_from_slice(&[0, 1, b'k', 9, 0, 4]);
    expected.extend_from_slice(b"with");
    expected.extend_from_slice(&[10, 0, 0, 0, 1]);
    expected.extend_from_slice(&[8, 0, 4, b't', b'e', b'x', b't', 0, 1, b'x', 0]);
    expected.push(0);
    assert_eq!(bytes, expected);
}

#[test]
fn binary_encoding_uses_utf8() {
    let bytes = TextComponent::text("é").encode().unwrap();
    assert_eq!(&bytes[8..12], &[0, 2, 0xC3, 0xA9]);
}

#[test]
fn binary_encoding_rejects_overlong_string() {
    let long = "a".repeat(70000);
    assert_eq!(TextComponent::text_string(long).encode(), Err(EncodeError::StringTooLong));
}

#[test]
fn translated_two_levels_round_trip() {
    let make = || {
        translate(
            "outer",
            vec![
                translate("inner", vec![TextComponent::text("leaf").bold()]),
                translate("empty", vec![]),
            ],
        )
    };
    let v = make().to_value();
    let back = TextComponent::from_value(&v).unwrap();
    assert_eq!(back, make());
    // the empty argument list is left out, not written as an empty list
    match &v {
        Value::Compound(es) => match &es[1].1 {
            Value::List(items) => {
                assert_eq!(items[1], compound(vec![("translate", s("empty"))]));
            }
            other => panic!("unexpected {:?}", other),
        },
        other => panic!("unexpected {:?}", other),
    }
}

#[test]
fn text_key_wins_over_translate_key() {
    let v = compound(vec![("translate", s("some.key")), ("text", s("literal"))]);
    let c = TextComponent::from_value(&v).unwrap();
    assert_eq!(c.content, TextContent::Text { text: "literal".to_string() });
}

#[test]
fn translate_key_wins_over_keybind_key() {
    let v = compound(vec![("keybind", s("key.jump")), ("translate", s("a.b"))]);
    let c = TextComponent::from_value(&v).unwrap();
    assert_eq!(c.content, TextContent::Translate { translate: "a.b".to_string(), with: vec![] });
}

#[test]
fn selector_and_keybind_decode() {
    let v = compound(vec![("selector", s("@a")), ("separator", s(", "))]);
    assert_eq!(
        TextComponent::from_value(&v).unwrap().content,
        TextContent::EntityNames { selector: "@a".to_string(), separator: Some(", ".to_string()) }
    );
    let v = compound(vec![("keybind", s("key.jump")), ("unknown", Value::Bool(true))]);
    assert_eq!(
        TextComponent::from_value(&v).unwrap().content,
        TextContent::Keybind { keybind: "key.jump".to_string() }
    );
}

#[test]
fn no_content_key_is_unknown_shape() {
    let v = compound(vec![("bold", Value::Bool(true)), ("color", s("red"))]);
    assert_eq!(TextComponent::from_value(&v), Err(DecodeError::UnknownContentShape));
}

#[test]
fn malformed_content_errors() {
    let v = compound(vec![("text", Value::Bool(true))]);
    assert_eq!(TextComponent::from_value(&v), Err(DecodeError::MalformedContent));
    let v = compound(vec![("translate", s("k")), ("with", s("not a list"))]);
    assert_eq!(TextComponent::from_value(&v), Err(DecodeError::MalformedContent));
    assert_eq!(TextComponent::from_value(&s("bare")), Err(DecodeError::MalformedContent));
}

#[test]
fn malformed_style_field_errors() {
    let v = compound(vec![("text", s("x")), ("bold", s("yes"))]);
    assert_eq!(TextComponent::from_value(&v), Err(DecodeError::MalformedStyleField));
    let v = compound(vec![("text", s("x")), ("color", s("not_a_colour"))]);
    assert_eq!(TextComponent::from_value(&v), Err(DecodeError::MalformedStyleField));
    let ev = compound(vec![("action", s("explode")), ("value", s("now"))]);
    let v = compound(vec![("text", s("x")), ("clickEvent", ev)]);
    assert_eq!(TextComponent::from_value(&v), Err(DecodeError::MalformedStyleField));
}

#[test]
fn depth_limit_is_enforced() {
    let mut v = compound(vec![("text", s("leaf"))]);
    for _ in 0..40 {
        v = compound(vec![("translate", s("k")), ("with", Value::List(vec![v]))]);
    }
    assert_eq!(TextComponent::from_value(&v), Err(DecodeError::DepthLimitExceeded));
}

#[test]
fn size_limit_is_enforced() {
    let items: Vec<Value> = (0..300).map(|_| compound(vec![("text", s("a"))])).collect();
    let v = compound(vec![("translate", s("k")), ("with", Value::List(items))]);
    assert_eq!(TextComponent::from_value(&v), Err(DecodeError::SizeLimitExceeded));
}

#[test]
fn events_decode() {
    let click = compound(vec![("action", s("open_url")), ("value", s("https://example.com"))]);
    let hover = compound(vec![("action", s("show_item")), ("contents", s("minecraft:stone"))]);
    let v = compound(vec![("text", s("x")), ("clickEvent", click), ("hoverEvent", hover)]);
    let c = TextComponent::from_value(&v).unwrap();
    assert_eq!(c.style.click_event, Some(ClickEvent::OpenUrl("https://example.com".to_string())));
    assert_eq!(c.style.hover_event, Some(HoverEvent::ShowItem("minecraft:stone".to_string())));
}

#[test]
fn colour_text_forms() {
    assert_eq!(Color::Rgb(RGBColor { red: 255, green: 0, blue: 128 }).to_text(), "#ff0080");
    assert_eq!(Color::Named(NamedColor::DarkPurple).to_text(), "dark_purple");
    assert_eq!(Color::from_text("#FF0080"), Some(Color::Rgb(RGBColor { red: 255, green: 0, blue: 128 })));
    assert_eq!(Color::from_text("light_purple"), Some(Color::Named(NamedColor::LightPurple)));
    assert_eq!(Color::from_text("#12345"), None);
    assert_eq!(NamedColor::Gold.rgb(), RGBColor { red: 255, green: 170, blue: 0 });
}

#[test]
fn console_bold_red_nests_colour_outermost() {
    colored::control::set_override(true);
    let out = TextComponent::text("hi").color_named(NamedColor::Red).bold().to_pretty_console();
    assert_eq!(out, "\x1b[91m\x1b[1mhi\x1b[0m\x1b[91m\x1b[0m");
}

#[test]
fn console_open_url_is_hyperlink() {
    colored::control::set_override(true);
    let out = TextComponent::text("site")
        .click_event(ClickEvent::OpenUrl("https://example.com".to_string()))
        .to_pretty_console();
    assert_eq!(out, "\x1b]8;;https://example.com\x1b\\site\x1b]8;;\x1b\\");
}

#[test]
fn console_other_click_has_no_effect() {
    colored::control::set_override(true);
    let out = TextComponent::text("cmd")
        .click_event(ClickEvent::RunCommand("/x".to_string()))
        .obfuscated()
        .to_pretty_console();
    assert_eq!(out, "cmd");
}

#[test]
fn console_shows_translate_key_only() {
    colored::control::set_override(true);
    let out = translate("chat.type.text", vec![TextComponent::text("arg")]).to_pretty_console();
    assert_eq!(out, "chat.type.text");
}

#[test]
fn console_without_colouring_is_plain() {
    colored::control::set_override(false);
    let out = TextComponent::text("plain").bold().underlined().to_pretty_console();
    assert_eq!(out, "plain");
}

#[test]
fn console_rgb_and_underline() {
    colored::control::set_override(true);
    let out = TextComponent::text("x")
        .underlined()
        .color_rgb(RGBColor { red: 1, green: 2, blue: 3 })
        .to_pretty_console();
    assert!(out.starts_with("\x1b["));
    assert!(out.contains("\x1b[4mx\x1b[0m"));
    assert!(out.ends_with("\x1b[0m"));
}

#[test]
fn hyperlink_layout() {
    assert_eq!(hyperlink("u", "l"), "\x1b]8;;u\x1b\\l\x1b]8;;\x1b\\");
}

#[test]
fn builders_set_fields() {
    let c = TextComponent::text_string("t".to_string())
        .color(Color::Named(NamedColor::Aqua))
        .insertion("i".to_string());
    assert_eq!(c.style.color, Some(Color::Named(NamedColor::Aqua)));
    assert_eq!(c.style.insertion, Some("i".to_string()));
    assert_eq!(c.style.bold, None);
}
