//! The structural form of text: a compound whose keys say which content
//! shape is active, with the style keys beside the content keys.
use vstd::prelude::*;

use crate::click::{click_model, ClickEvent};
use crate::color::{color_text, parse_color, Color};
use crate::hover::{hover_model, HoverEvent};
use crate::style::{opt_string_model, EventModel, Style, StyleModel};
use crate::text::{
    component_model, content_model, lemma_texts_model_len, lemma_texts_model_prefix,
    lemma_texts_model_push, texts_model, ContentModel, Text, TextComponent, TextContent, TextModel,
};
use crate::value::{
    entries_nodes, lemma_entries_nodes_push, lemma_values_nodes_len, lemma_values_nodes_push,
    lookup, values_nodes, Node, Value,
};

verus! {

/// The deepest nesting of `with` lists that decoding accepts; the outermost
/// node is at depth 0.
pub const MAX_DEPTH: usize = 32;

/// The longest `with` list that decoding accepts.
pub const MAX_ITEMS: usize = 256;

/// Why a structural value is not a text node.
#[derive(Clone, Copy, Debug, PartialEq, Eq, Structural)]
pub enum DecodeError {
    /// None of `text`, `translate`, `selector` and `keybind` is present.
    UnknownContentShape,
    /// A content key holds a value of the wrong kind, or the value is no compound.
    MalformedContent,
    /// A style key holds a value of the wrong kind.
    MalformedStyleField,
    /// `with` lists are nested deeper than `MAX_DEPTH`.
    DepthLimitExceeded,
    /// A `with` list is longer than `MAX_ITEMS`.
    SizeLimitExceeded,
}

// Encoding.

pub open spec fn bool_entry(k: Seq<char>, o: Option<bool>) -> Seq<(Seq<char>, Node)> {
    match o {
        Some(b) => seq![(k, Node::Bool(b))],
        None => seq![],
    }
}

pub open spec fn str_entry(k: Seq<char>, o: Option<Seq<char>>) -> Seq<(Seq<char>, Node)> {
    match o {
        Some(s) => seq![(k, Node::Str(s))],
        None => seq![],
    }
}

pub open spec fn color_entry(o: Option<Color>) -> Seq<(Seq<char>, Node)> {
    match o {
        Some(c) => seq![("color"@, Node::Str(color_text(c)))],
        None => seq![],
    }
}

/// An event as a compound of its action and, under `value_key`, its value.
pub open spec fn event_node(e: EventModel, value_key: Seq<char>) -> Node {
    Node::Compound(seq![("action"@, Node::Str(e.action)), (value_key, Node::Str(e.value))])
}

pub open spec fn event_entry(k: Seq<char>, o: Option<EventModel>, value_key: Seq<char>) -> Seq<
    (Seq<char>, Node),
> {
    match o {
        Some(e) => seq![(k, event_node(e, value_key))],
        None => seq![],
    }
}

/// The entries of the present style fields, in their fixed order.
pub open spec fn style_entries(s: StyleModel) -> Seq<(Seq<char>, Node)> {
    color_entry(s.color) + (bool_entry("bold"@, s.bold) + (bool_entry("italic"@, s.italic) + (
    bool_entry("underlined"@, s.underlined) + (bool_entry("strikethrough"@, s.strikethrough) + (
    bool_entry("obfuscated"@, s.obfuscated) + (str_entry("insertion"@, s.insertion) + (str_entry(
        "font"@,
        s.font,
    ) + (event_entry("clickEvent"@, s.click_event, "value"@) + event_entry(
        "hoverEvent"@,
        s.hover_event,
        "contents"@,
    )))))))))
}

/// The entries of the active content shape; an empty `with` and an absent
/// separator are left out.
pub open spec fn content_entries(c: ContentModel) -> Seq<(Seq<char>, Node)>
    decreases c,
{
    match c {
        ContentModel::Text { text } => seq![("text"@, Node::Str(text))],
        ContentModel::Translate { translate, with } => seq![("translate"@, Node::Str(translate))]
            + if with.len() == 0 {
            seq![]
        } else {
            seq![("with"@, Node::List(models_nodes(with)))]
        },
        ContentModel::EntityNames { selector, separator } => seq![("selector"@, Node::Str(selector))]
            + str_entry("separator"@, separator),
        ContentModel::Keybind { keybind } => seq![("keybind"@, Node::Str(keybind))],
    }
}

/// The structural form of a text node.
pub open spec fn model_node(m: TextModel) -> Node
    decreases m,
{
    Node::Compound(content_entries(m.content) + style_entries(m.style))
}

pub open spec fn models_nodes(s: Seq<TextModel>) -> Seq<Node>
    decreases s,
{
    if s.len() == 0 {
        Seq::empty()
    } else {
        models_nodes(s.subrange(0, s.len() - 1)).push(model_node(s[s.len() - 1]))
    }
}

// Decoding.

pub open spec fn bool_field(es: Seq<(Seq<char>, Node)>, k: Seq<char>) -> Result<
    Option<bool>,
    DecodeError,
> {
    match lookup(es, k) {
        None => Ok(None),
        Some(Node::Bool(b)) => Ok(Some(b)),
        Some(_) => Err(DecodeError::MalformedStyleField),
    }
}

pub open spec fn str_field(es: Seq<(Seq<char>, Node)>, k: Seq<char>) -> Result<
    Option<Seq<char>>,
    DecodeError,
> {
    match lookup(es, k) {
        None => Ok(None),
        Some(Node::Str(s)) => Ok(Some(s)),
        Some(_) => Err(DecodeError::MalformedStyleField),
    }
}

pub open spec fn color_field(es: Seq<(Seq<char>, Node)>) -> Result<Option<Color>, DecodeError> {
    match lookup(es, "color"@) {
        None => Ok(None),
        Some(Node::Str(s)) => match parse_color(s) {
            Some(c) => Ok(Some(c)),
            None => Err(DecodeError::MalformedStyleField),
        },
        Some(_) => Err(DecodeError::MalformedStyleField),
    }
}

/// The action names of click events.
pub open spec fn is_click_action(a: Seq<char>) -> bool {
    ||| a == "open_url"@
    ||| a == "run_command"@
    ||| a == "suggest_command"@
    ||| a == "change_page"@
    ||| a == "copy_to_clipboard"@
}

/// The action names of hover events.
pub open spec fn is_hover_action(a: Seq<char>) -> bool {
    ||| a == "show_text"@
    ||| a == "show_item"@
    ||| a == "show_entity"@
}

pub open spec fn event_field(
    es: Seq<(Seq<char>, Node)>,
    k: Seq<char>,
    value_key: Seq<char>,
    click: bool,
) -> Result<Option<EventModel>, DecodeError> {
    match lookup(es, k) {
        None => Ok(None),
        Some(Node::Compound(inner)) => match (lookup(inner, "action"@), lookup(inner, value_key)) {
            (Some(Node::Str(a)), Some(Node::Str(v))) => if (click && is_click_action(a)) || (!click
                && is_hover_action(a)) {
                Ok(Some(EventModel { action: a, value: v }))
            } else {
                Err(DecodeError::MalformedStyleField)
            },
            _ => Err(DecodeError::MalformedStyleField),
        },
        Some(_) => Err(DecodeError::MalformedStyleField),
    }
}

/// The style read from the entries of a compound: each key that is absent
/// leaves its field absent, keys that no field has are ignored.
pub open spec fn decode_style(es: Seq<(Seq<char>, Node)>) -> Result<StyleModel, DecodeError> {
    let color = color_field(es);
    let bold = bool_field(es, "bold"@);
    let italic = bool_field(es, "italic"@);
    let underlined = bool_field(es, "underlined"@);
    let strikethrough = bool_field(es, "strikethrough"@);
    let obfuscated = bool_field(es, "obfuscated"@);
    let insertion = str_field(es, "insertion"@);
    let font = str_field(es, "font"@);
    let click = event_field(es, "clickEvent"@, "value"@, true);
    let hover = event_field(es, "hoverEvent"@, "contents"@, false);
    if color is Ok && bold is Ok && italic is Ok && underlined is Ok && strikethrough is Ok
        && obfuscated is Ok && insertion is Ok && font is Ok && click is Ok && hover is Ok {
        Ok(
            StyleModel {
                color: color->Ok_0,
                bold: bold->Ok_0,
                italic: italic->Ok_0,
                underlined: underlined->Ok_0,
                strikethrough: strikethrough->Ok_0,
                obfuscated: obfuscated->Ok_0,
                insertion: insertion->Ok_0,
                font: font->Ok_0,
                click_event: click->Ok_0,
                hover_event: hover->Ok_0,
            },
        )
    } else {
        Err(DecodeError::MalformedStyleField)
    }
}

/// The content shape read from the entries of a compound at the given
/// depth. The keys are tried in a fixed order: `text`, `translate`,
/// `selector`, `keybind`; the first one present decides.
pub open spec fn decode_content(es: Seq<(Seq<char>, Node)>, depth: int) -> Result<
    ContentModel,
    DecodeError,
>
    decreases MAX_DEPTH + 1 - depth, 0int,
{
    match lookup(es, "text"@) {
        Some(Node::Str(text)) => Ok(ContentModel::Text { text }),
        Some(_) => Err(DecodeError::MalformedContent),
        None => match lookup(es, "translate"@) {
            Some(Node::Str(translate)) => match lookup(es, "with"@) {
                None => Ok(ContentModel::Translate { translate, with: seq![] }),
                Some(Node::List(items)) => if items.len() > MAX_ITEMS {
                    Err(DecodeError::SizeLimitExceeded)
                } else if depth + 1 > MAX_DEPTH {
                    Err(DecodeError::DepthLimitExceeded)
                } else {
                    match decode_nodes(items, depth + 1) {
                        Ok(with) => Ok(ContentModel::Translate { translate, with }),
                        Err(e) => Err(e),
                    }
                },
                Some(_) => Err(DecodeError::MalformedContent),
            },
            Some(_) => Err(DecodeError::MalformedContent),
            None => match lookup(es, "selector"@) {
                Some(Node::Str(selector)) => match lookup(es, "separator"@) {
                    None => Ok(ContentModel::EntityNames { selector, separator: None }),
                    Some(Node::Str(s)) => Ok(
                        ContentModel::EntityNames { selector, separator: Some(s) },
                    ),
                    Some(_) => Err(DecodeError::MalformedContent),
                },
                Some(_) => Err(DecodeError::MalformedContent),
                None => match lookup(es, "keybind"@) {
                    Some(Node::Str(keybind)) => Ok(ContentModel::Keybind { keybind }),
                    Some(_) => Err(DecodeError::MalformedContent),
                    None => Err(DecodeError::UnknownContentShape),
                },
            },
        },
    }
}

/// The text node that a structural value at the given depth stands for.
pub open spec fn decode_node(n: Node, depth: int) -> Result<TextModel, DecodeError>
    decreases MAX_DEPTH + 1 - depth, 1int,
{
    match n {
        Node::Compound(es) => match decode_content(es, depth) {
            Err(e) => Err(e),
            Ok(content) => match decode_style(es) {
                Err(e) => Err(e),
                Ok(style) => Ok(TextModel { content, style }),
            },
        },
        _ => Err(DecodeError::MalformedContent),
    }
}

/// The nodes of a `with` list, in order; the first that fails decides the error.
pub open spec fn decode_nodes(items: Seq<Node>, depth: int) -> Result<Seq<TextModel>, DecodeError>
    decreases MAX_DEPTH + 1 - depth, items.len() + 2,
{
    if items.len() == 0 {
        Ok(seq![])
    } else {
        match decode_nodes(items.subrange(0, items.len() - 1), depth) {
            Err(e) => Err(e),
            Ok(ms) => match decode_node(items[items.len() - 1], depth) {
                Err(e) => Err(e),
                Ok(m) => Ok(ms.push(m)),
            },
        }
    }
}

// Laws.

pub broadcast proof fn lemma_lookup_concat(
    a: Seq<(Seq<char>, Node)>,
    b: Seq<(Seq<char>, Node)>,
    k: Seq<char>,
)
    ensures
        #[trigger] lookup(a + b, k) == (if lookup(a, k) is Some {
            lookup(a, k)
        } else {
            lookup(b, k)
        }),
    decreases a.len(),
{
    if a.len() > 0 {
        lemma_lookup_concat(a.subrange(1, a.len() as int), b, k);
        assert((a + b).subrange(1, (a + b).len() as int) =~= a.subrange(1, a.len() as int) + b);
    } else {
        assert(a + b =~= b);
    }
}

pub broadcast proof fn lemma_lookup_one(k: Seq<char>, n: Node, key: Seq<char>)
    ensures
        #[trigger] lookup(seq![(k, n)], key) == (if k == key {
            Some(n)
        } else {
            None::<Node>
        }),
{
    let s = seq![(k, n)];
    assert(lookup(s.subrange(1, 1), key) is None);
}

pub broadcast proof fn lemma_lookup_bool_entry(k: Seq<char>, o: Option<bool>, key: Seq<char>)
    ensures
        #[trigger] lookup(bool_entry(k, o), key) == (if k == key && o is Some {
            Some(Node::Bool(o->Some_0))
        } else {
            None::<Node>
        }),
{
    lemma_lookup_one(k, Node::Bool(o->Some_0), key);
}

pub broadcast proof fn lemma_lookup_str_entry(k: Seq<char>, o: Option<Seq<char>>, key: Seq<char>)
    ensures
        #[trigger] lookup(str_entry(k, o), key) == (if k == key && o is Some {
            Some(Node::Str(o->Some_0))
        } else {
            None::<Node>
        }),
{
    lemma_lookup_one(k, Node::Str(o->Some_0), key);
}

pub broadcast proof fn lemma_lookup_color_entry(o: Option<Color>, key: Seq<char>)
    ensures
        #[trigger] lookup(color_entry(o), key) == (if "color"@ == key && o is Some {
            Some(Node::Str(color_text(o->Some_0)))
        } else {
            None::<Node>
        }),
{
    lemma_lookup_one("color"@, Node::Str(color_text(o->Some_0)), key);
}

pub broadcast proof fn lemma_lookup_event_entry(
    k: Seq<char>,
    o: Option<EventModel>,
    vk: Seq<char>,
    key: Seq<char>,
)
    ensures
        #[trigger] lookup(event_entry(k, o, vk), key) == (if k == key && o is Some {
            Some(event_node(o->Some_0, vk))
        } else {
            None::<Node>
        }),
{
    lemma_lookup_one(k, event_node(o->Some_0, vk), key);
}

proof fn lemma_lookup_pair(k1: Seq<char>, n1: Node, k2: Seq<char>, n2: Node)
    requires
        k1 != k2,
    ensures
        lookup(seq![(k1, n1), (k2, n2)], k1) == Some(n1),
        lookup(seq![(k1, n1), (k2, n2)], k2) == Some(n2),
{
    let s = seq![(k1, n1), (k2, n2)];
    assert(s.subrange(1, 2) =~= seq![(k2, n2)]);
    lemma_lookup_one(k2, n2, k2);
}

proof fn lemma_no_content_key(pre: Seq<(Seq<char>, Node)>, k: Seq<char>)
    requires
        forall|i: int| 0 <= i < pre.len() ==> is_content_key(#[trigger] pre[i].0),
        !is_content_key(k),
    ensures
        lookup(pre, k) is None,
{
    crate::value::lemma_lookup(pre, k);
}

/// The keys of the structural form are pairwise distinct.
pub proof fn lemma_keys_distinct()
    ensures
        "color"@ != "bold"@,
        "color"@ != "italic"@,
        "color"@ != "underlined"@,
        "color"@ != "strikethrough"@,
        "color"@ != "obfuscated"@,
        "color"@ != "insertion"@,
        "color"@ != "font"@,
        "color"@ != "clickEvent"@,
        "color"@ != "hoverEvent"@,
        "color"@ != "text"@,
        "color"@ != "translate"@,
        "color"@ != "with"@,
        "color"@ != "selector"@,
        "color"@ != "separator"@,
        "color"@ != "keybind"@,
        "bold"@ != "italic"@,
        "bold"@ != "underlined"@,
        "bold"@ != "strikethrough"@,
        "bold"@ != "obfuscated"@,
        "bold"@ != "insertion"@,
        "bold"@ != "font"@,
        "bold"@ != "clickEvent"@,
        "bold"@ != "hoverEvent"@,
        "bold"@ != "text"@,
        "bold"@ != "translate"@,
        "bold"@ != "with"@,
        "bold"@ != "selector"@,
        "bold"@ != "separator"@,
        "bold"@ != "keybind"@,
        "italic"@ != "underlined"@,
        "italic"@ != "strikethrough"@,
        "italic"@ != "obfuscated"@,
        "italic"@ != "insertion"@,
        "italic"@ != "font"@,
        "italic"@ != "clickEvent"@,
        "italic"@ != "hoverEvent"@,
        "italic"@ != "text"@,
        "italic"@ != "translate"@,
        "italic"@ != "with"@,
        "italic"@ != "selector"@,
        "italic"@ != "separator"@,
        "italic"@ != "keybind"@,
        "underlined"@ != "strikethrough"@,
        "underlined"@ != "obfuscated"@,
        "underlined"@ != "insertion"@,
        "underlined"@ != "font"@,
        "underlined"@ != "clickEvent"@,
        "underlined"@ != "hoverEvent"@,
        "underlined"@ != "text"@,
        "underlined"@ != "translate"@,
        "underlined"@ != "with"@,
        "underlined"@ != "selector"@,
        "underlined"@ != "separator"@,
        "underlined"@ != "keybind"@,
        "strikethrough"@ != "obfuscated"@,
        "strikethrough"@ != "insertion"@,
        "strikethrough"@ != "font"@,
        "strikethrough"@ != "clickEvent"@,
        "strikethrough"@ != "hoverEvent"@,
        "strikethrough"@ != "text"@,
        "strikethrough"@ != "translate"@,
        "strikethrough"@ != "with"@,
        "strikethrough"@ != "selector"@,
        "strikethrough"@ != "separator"@,
        "strikethrough"@ != "keybind"@,
        "obfuscated"@ != "insertion"@,
        "obfuscated"@ != "font"@,
        "obfuscated"@ != "clickEvent"@,
        "obfuscated"@ != "hoverEvent"@,
        "obfuscated"@ != "text"@,
        "obfuscated"@ != "translate"@,
        "obfuscated"@ != "with"@,
        "obfuscated"@ != "selector"@,
        "obfuscated"@ != "separator"@,
        "obfuscated"@ != "keybind"@,
        "insertion"@ != "font"@,
        "insertion"@ != "clickEvent"@,
        "insertion"@ != "hoverEvent"@,
        "insertion"@ != "text"@,
        "insertion"@ != "translate"@,
        "insertion"@ != "with"@,
        "insertion"@ != "selector"@,
        "insertion"@ != "separator"@,
        "insertion"@ != "keybind"@,
        "font"@ != "clickEvent"@,
        "font"@ != "hoverEvent"@,
        "font"@ != "text"@,
        "font"@ != "translate"@,
        "font"@ != "with"@,
        "font"@ != "selector"@,
        "font"@ != "separator"@,
        "font"@ != "keybind"@,
        "clickEvent"@ != "hoverEvent"@,
        "clickEvent"@ != "text"@,
        "clickEvent"@ != "translate"@,
        "clickEvent"@ != "with"@,
        "clickEvent"@ != "selector"@,
        "clickEvent"@ != "separator"@,
        "clickEvent"@ != "keybind"@,
        "hoverEvent"@ != "text"@,
        "hoverEvent"@ != "translate"@,
        "hoverEvent"@ != "with"@,
        "hoverEvent"@ != "selector"@,
        "hoverEvent"@ != "separator"@,
        "hoverEvent"@ != "keybind"@,
        "text"@ != "translate"@,
        "text"@ != "with"@,
        "text"@ != "selector"@,
        "text"@ != "separator"@,
        "text"@ != "keybind"@,
        "translate"@ != "with"@,
        "translate"@ != "selector"@,
        "translate"@ != "separator"@,
        "translate"@ != "keybind"@,
        "with"@ != "selector"@,
        "with"@ != "separator"@,
        "with"@ != "keybind"@,
        "selector"@ != "separator"@,
        "selector"@ != "keybind"@,
        "separator"@ != "keybind"@,
        "action"@ != "value"@,
        "action"@ != "contents"@,
{
    reveal_strlit("color");
    reveal_strlit("bold");
    reveal_strlit("italic");
    reveal_strlit("underlined");
    reveal_strlit("strikethrough");
    reveal_strlit("obfuscated");
    reveal_strlit("insertion");
    reveal_strlit("font");
    reveal_strlit("clickEvent");
    reveal_strlit("hoverEvent");
    reveal_strlit("text");
    reveal_strlit("translate");
    reveal_strlit("with");
    reveal_strlit("selector");
    reveal_strlit("separator");
    reveal_strlit("keybind");
    reveal_strlit("value");
    reveal_strlit("contents");
    reveal_strlit("action");
    assert("bold"@[0] != "font"@[0]);
    assert("bold"@[0] != "text"@[0]);
    assert("bold"@[0] != "with"@[0]);
    assert("underlined"@[0] != "obfuscated"@[0]);
    assert("underlined"@[0] != "clickEvent"@[0]);
    assert("underlined"@[0] != "hoverEvent"@[0]);
    assert("obfuscated"@[0] != "clickEvent"@[0]);
    assert("obfuscated"@[0] != "hoverEvent"@[0]);
    assert("insertion"@[0] != "translate"@[0]);
    assert("insertion"@[0] != "separator"@[0]);
    assert("font"@[0] != "text"@[0]);
    assert("font"@[0] != "with"@[0]);
    assert("clickEvent"@[0] != "hoverEvent"@[0]);
    assert("text"@[0] != "with"@[0]);
    assert("translate"@[0] != "separator"@[0]);
    assert("color"@.len() != "bold"@.len());
    assert("color"@.len() != "italic"@.len());
    assert("color"@.len() != "underlined"@.len());
    assert("color"@.len() != "strikethrough"@.len());
    assert("color"@.len() != "obfuscated"@.len());
    assert("color"@.len() != "insertion"@.len());
    assert("color"@.len() != "font"@.len());
    assert("color"@.len() != "clickEvent"@.len());
    assert("color"@.len() != "hoverEvent"@.len());
    assert("color"@.len() != "text"@.len());
    assert("color"@.len() != "translate"@.len());
    assert("color"@.len() != "with"@.len());
    assert("color"@.len() != "selector"@.len());
    assert("color"@.len() != "separator"@.len());
    assert("color"@.len() != "keybind"@.len());
    assert("bold"@.len() != "italic"@.len());
    assert("bold"@.len() != "underlined"@.len());
    assert("bold"@.len() != "strikethrough"@.len());
    assert("bold"@.len() != "obfuscated"@.len());
    assert("bold"@.len() != "insertion"@.len());
    assert("bold"@.len() != "clickEvent"@.len());
    assert("bold"@.len() != "hoverEvent"@.len());
    assert("bold"@.len() != "translate"@.len());
    assert("bold"@.len() != "selector"@.len());
    assert("bold"@.len() != "separator"@.len());
    assert("bold"@.len() != "keybind"@.len());
    assert("italic"@.len() != "underlined"@.len());
    assert("italic"@.len() != "strikethrough"@.len());
    assert("italic"@.len() != "obfuscated"@.len());
    assert("italic"@.len() != "insertion"@.len());
    assert("italic"@.len() != "font"@.len());
    assert("italic"@.len() != "clickEvent"@.len());
    assert("italic"@.len() != "hoverEvent"@.len());
    assert("italic"@.len() != "text"@.len());
    assert("italic"@.len() != "translate"@.len());
    assert("italic"@.len() != "with"@.len());
    assert("italic"@.len() != "selector"@.len());
    assert("italic"@.len() != "separator"@.len());
    assert("italic"@.len() != "keybind"@.len());
    assert("underlined"@.len() != "strikethrough"@.len());
    assert("underlined"@.len() != "insertion"@.len());
    assert("underlined"@.len() != "font"@.len());
    assert("underlined"@.len() != "text"@.len());
    assert("underlined"@.len() != "translate"@.len());
    assert("underlined"@.len() != "with"@.len());
    assert("underlined"@.len() != "selector"@.len());
    assert("underlined"@.len() != "separator"@.len());
    assert("underlined"@.len() != "keybind"@.len());
    assert("strikethrough"@.len() != "obfuscated"@.len());
    assert("strikethrough"@.len() != "insertion"@.len());
    assert("strikethrough"@.len() != "font"@.len());
    assert("strikethrough"@.len() != "clickEvent"@.len());
    assert("strikethrough"@.len() != "hoverEvent"@.len());
    assert("strikethrough"@.len() != "text"@.len());
    assert("strikethrough"@.len() != "translate"@.len());
    assert("strikethrough"@.len() != "with"@.len());
    assert("strikethrough"@.len() != "selector"@.len());
    assert("strikethrough"@.len() != "separator"@.len());
    assert("strikethrough"@.len() != "keybind"@.len());
    assert("obfuscated"@.len() != "insertion"@.len());
    assert("obfuscated"@.len() != "font"@.len());
    assert("obfuscated"@.len() != "text"@.len());
    assert("obfuscated"@.len() != "translate"@.len());
    assert("obfuscated"@.len() != "with"@.len());
    assert("obfuscated"@.len() != "selector"@.len());
    assert("obfuscated"@.len() != "separator"@.len());
    assert("obfuscated"@.len() != "keybind"@.len());
    assert("insertion"@.len() != "font"@.len());
    assert("insertion"@.len() != "clickEvent"@.len());
    assert("insertion"@.len() != "hoverEvent"@.len());
    assert("insertion"@.len() != "text"@.len());
    assert("insertion"@.len() != "with"@.len());
    assert("insertion"@.len() != "selector"@.len());
    assert("insertion"@.len() != "keybind"@.len());
    assert("font"@.len() != "clickEvent"@.len());
    assert("font"@.len() != "hoverEvent"@.len());
    assert("font"@.len() != "translate"@.len());
    assert("font"@.len() != "selector"@.len());
    assert("font"@.len() != "separator"@.len());
    assert("font"@.len() != "keybind"@.len());
    assert("clickEvent"@.len() != "text"@.len());
    assert("clickEvent"@.len() != "translate"@.len());
    assert("clickEvent"@.len() != "with"@.len());
    assert("clickEvent"@.len() != "selector"@.len());
    assert("clickEvent"@.len() != "separator"@.len());
    assert("clickEvent"@.len() != "keybind"@.len());
    assert("hoverEvent"@.len() != "text"@.len());
    assert("hoverEvent"@.len() != "translate"@.len());
    assert("hoverEvent"@.len() != "with"@.len());
    assert("hoverEvent"@.len() != "selector"@.len());
    assert("hoverEvent"@.len() != "separator"@.len());
    assert("hoverEvent"@.len() != "keybind"@.len());
    assert("text"@.len() != "translate"@.len());
    assert("text"@.len() != "selector"@.len());
    assert("text"@.len() != "separator"@.len());
    assert("text"@.len() != "keybind"@.len());
    assert("translate"@.len() != "with"@.len());
    assert("translate"@.len() != "selector"@.len());
    assert("translate"@.len() != "keybind"@.len());
    assert("with"@.len() != "selector"@.len());
    assert("with"@.len() != "separator"@.len());
    assert("with"@.len() != "keybind"@.len());
    assert("selector"@.len() != "separator"@.len());
    assert("selector"@.len() != "keybind"@.len());
    assert("separator"@.len() != "keybind"@.len());
    assert("action"@.len() != "value"@.len());
    assert("action"@.len() != "contents"@.len());
}

proof fn lemma_style_lookups(m: StyleModel)
    ensures
        lookup(style_entries(m), "color"@) == (if m.color is Some {
            Some(Node::Str(color_text(m.color->Some_0)))
        } else {
            None::<Node>
        }),
        lookup(style_entries(m), "bold"@) == (if m.bold is Some {
            Some(Node::Bool(m.bold->Some_0))
        } else {
            None::<Node>
        }),
        lookup(style_entries(m), "italic"@) == (if m.italic is Some {
            Some(Node::Bool(m.italic->Some_0))
        } else {
            None::<Node>
        }),
        lookup(style_entries(m), "underlined"@) == (if m.underlined is Some {
            Some(Node::Bool(m.underlined->Some_0))
        } else {
            None::<Node>
        }),
        lookup(style_entries(m), "strikethrough"@) == (if m.strikethrough is Some {
            Some(Node::Bool(m.strikethrough->Some_0))
        } else {
            None::<Node>
        }),
        lookup(style_entries(m), "obfuscated"@) == (if m.obfuscated is Some {
            Some(Node::Bool(m.obfuscated->Some_0))
        } else {
            None::<Node>
        }),
        lookup(style_entries(m), "insertion"@) == (if m.insertion is Some {
            Some(Node::Str(m.insertion->Some_0))
        } else {
            None::<Node>
        }),
        lookup(style_entries(m), "font"@) == (if m.font is Some {
            Some(Node::Str(m.font->Some_0))
        } else {
            None::<Node>
        }),
        lookup(style_entries(m), "clickEvent"@) == (if m.click_event is Some {
            Some(event_node(m.click_event->Some_0, "value"@))
        } else {
            None::<Node>
        }),
        lookup(style_entries(m), "hoverEvent"@) == (if m.hover_event is Some {
            Some(event_node(m.hover_event->Some_0, "contents"@))
        } else {
            None::<Node>
        }),
{
    broadcast use
        lemma_lookup_concat,
        lemma_lookup_bool_entry,
        lemma_lookup_str_entry,
        lemma_lookup_color_entry,
        lemma_lookup_event_entry,
    ;
    lemma_keys_distinct();
}

proof fn lemma_event_decode(
    es: Seq<(Seq<char>, Node)>,
    k: Seq<char>,
    vk: Seq<char>,
    click: bool,
    e: EventModel,
)
    requires
        lookup(es, k) == Some(event_node(e, vk)),
        vk != "action"@,
        click ==> is_click_action(e.action),
        !click ==> is_hover_action(e.action),
    ensures
        event_field(es, k, vk, click) == Ok::<Option<EventModel>, DecodeError>(Some(e)),
{
    lemma_lookup_pair("action"@, Node::Str(e.action), vk, Node::Str(e.value));
}

/// Reading back the entries of a style gives the style, whatever entries
/// of content keys stand before them.
#[verifier::rlimit(50)]
pub proof fn lemma_style_round_trip(pre: Seq<(Seq<char>, Node)>, st: Style)
    requires
        forall|i: int| 0 <= i < pre.len() ==> is_content_key(#[trigger] pre[i].0),
    ensures
        decode_style(pre + style_entries(st@)) == Ok::<StyleModel, DecodeError>(st@),
{
    let m = st@;
    let es = pre + style_entries(m);
    lemma_keys_distinct();
    lemma_style_lookups(m);
    lemma_no_content_key(pre, "color"@);
    lemma_no_content_key(pre, "bold"@);
    lemma_no_content_key(pre, "italic"@);
    lemma_no_content_key(pre, "underlined"@);
    lemma_no_content_key(pre, "strikethrough"@);
    lemma_no_content_key(pre, "obfuscated"@);
    lemma_no_content_key(pre, "insertion"@);
    lemma_no_content_key(pre, "font"@);
    lemma_no_content_key(pre, "clickEvent"@);
    lemma_no_content_key(pre, "hoverEvent"@);
    lemma_lookup_concat(pre, style_entries(m), "color"@);
    lemma_lookup_concat(pre, style_entries(m), "bold"@);
    lemma_lookup_concat(pre, style_entries(m), "italic"@);
    lemma_lookup_concat(pre, style_entries(m), "underlined"@);
    lemma_lookup_concat(pre, style_entries(m), "strikethrough"@);
    lemma_lookup_concat(pre, style_entries(m), "obfuscated"@);
    lemma_lookup_concat(pre, style_entries(m), "insertion"@);
    lemma_lookup_concat(pre, style_entries(m), "font"@);
    lemma_lookup_concat(pre, style_entries(m), "clickEvent"@);
    lemma_lookup_concat(pre, style_entries(m), "hoverEvent"@);
    if let Some(c) = m.color {
        crate::color::lemma_color_text_round_trip(c);
    }
    if let Some(e) = st.click_event {
        lemma_event_decode(es, "clickEvent"@, "value"@, true, click_model(e));
    }
    if let Some(e) = st.hover_event {
        lemma_event_decode(es, "hoverEvent"@, "contents"@, false, hover_model(e));
    }
    assert(color_field(es) == Ok::<Option<Color>, DecodeError>(m.color));
    assert(bool_field(es, "bold"@) == Ok::<Option<bool>, DecodeError>(m.bold));
    assert(bool_field(es, "italic"@) == Ok::<Option<bool>, DecodeError>(m.italic));
    assert(bool_field(es, "underlined"@) == Ok::<Option<bool>, DecodeError>(m.underlined));
    assert(bool_field(es, "strikethrough"@) == Ok::<Option<bool>, DecodeError>(m.strikethrough));
    assert(bool_field(es, "obfuscated"@) == Ok::<Option<bool>, DecodeError>(m.obfuscated));
    assert(str_field(es, "insertion"@) == Ok::<Option<Seq<char>>, DecodeError>(m.insertion));
    assert(str_field(es, "font"@) == Ok::<Option<Seq<char>>, DecodeError>(m.font));
    assert(event_field(es, "clickEvent"@, "value"@, true) == Ok::<
        Option<EventModel>,
        DecodeError,
    >(m.click_event));
    assert(event_field(es, "hoverEvent"@, "contents"@, false) == Ok::<
        Option<EventModel>,
        DecodeError,
    >(m.hover_event));
}

/// A literal node read back from its structural form is the node itself;
/// in particular no absent style field comes back present.
pub proof fn lemma_literal_round_trip(c: TextComponent, depth: int)
    requires
        c.content is Text,
    ensures
        decode_node(model_node(c@), depth) == Ok::<TextModel, DecodeError>(c@),
{
    let m = c@;
    let pre = content_entries(m.content);
    reveal_strlit("text");
    lemma_style_round_trip(pre, c.style);
    let es = pre + style_entries(m.style);
    assert(es[0] == ("text"@, Node::Str(m.content->Text_text)));
    assert(lookup(es, "text"@) == Some(Node::Str(m.content->Text_text)));
}

/// Where a compound has both a `text` and a `translate` key, it is read as
/// literal text.
pub proof fn lemma_text_key_first(es: Seq<(Seq<char>, Node)>, depth: int, text: Seq<char>)
    requires
        lookup(es, "text"@) == Some(Node::Str(text)),
        lookup(es, "translate"@) is Some,
    ensures
        decode_content(es, depth) == Ok::<ContentModel, DecodeError>(ContentModel::Text { text }),
        decode_node(Node::Compound(es), depth) is Ok ==> decode_node(Node::Compound(es), depth)->Ok_0.content
            == (ContentModel::Text { text }),
{
}

/// A compound with none of the keys `text`, `translate`, `selector` and
/// `keybind` is no text node.
pub proof fn lemma_unknown_shape(es: Seq<(Seq<char>, Node)>, depth: int)
    requires
        lookup(es, "text"@) is None,
        lookup(es, "translate"@) is None,
        lookup(es, "selector"@) is None,
        lookup(es, "keybind"@) is None,
    ensures
        decode_node(Node::Compound(es), depth) == Err::<TextModel, DecodeError>(
            DecodeError::UnknownContentShape,
        ),
{
}

proof fn lemma_style_no_content_key(m: StyleModel, k: Seq<char>)
    requires
        is_content_key(k),
    ensures
        lookup(style_entries(m), k) is None,
{
    broadcast use
        lemma_lookup_concat,
        lemma_lookup_bool_entry,
        lemma_lookup_str_entry,
        lemma_lookup_color_entry,
        lemma_lookup_event_entry,
    ;
    lemma_keys_distinct();
}

/// Whether decoding accepts the `with` lists of a node at the given depth:
/// none longer than `MAX_ITEMS`, none nested deeper than `MAX_DEPTH`.
pub open spec fn within_limits(m: TextModel, depth: int) -> bool
    decreases m,
{
    match m.content {
        ContentModel::Translate { with, .. } => with.len() <= MAX_ITEMS && (with.len() > 0
            ==> depth + 1 <= MAX_DEPTH) && all_within_limits(with, depth + 1),
        _ => true,
    }
}

pub open spec fn all_within_limits(ms: Seq<TextModel>, depth: int) -> bool
    decreases ms,
{
    if ms.len() == 0 {
        true
    } else {
        all_within_limits(ms.subrange(0, ms.len() - 1), depth) && within_limits(
            ms[ms.len() - 1],
            depth,
        )
    }
}

proof fn lemma_models_nodes_len(s: Seq<TextModel>)
    ensures
        models_nodes(s).len() == s.len(),
    decreases s.len(),
{
    if s.len() > 0 {
        lemma_models_nodes_len(s.subrange(0, s.len() - 1));
    }
}

proof fn lemma_texts_round_trip(s: Seq<Text>, depth: int)
    requires
        all_within_limits(texts_model(s), depth),
    ensures
        decode_nodes(models_nodes(texts_model(s)), depth) == Ok::<Seq<TextModel>, DecodeError>(
            texts_model(s),
        ),
    decreases s,
{
    if s.len() > 0 {
        let p = s.subrange(0, s.len() - 1);
        let last = s[s.len() - 1];
        let tm = texts_model(p);
        assert(texts_model(s) == tm.push(component_model(*last.0)));
        assert(texts_model(s).subrange(0, tm.len() as int) =~= tm) by {
            crate::text::lemma_texts_model_len(p);
        }
        crate::text::lemma_texts_model_len(p);
        lemma_texts_round_trip(p, depth);
        lemma_round_trip(*last.0, depth);
        lemma_models_nodes_push(tm, component_model(*last.0));
        let ns = models_nodes(tm);
        assert(ns.push(model_node(component_model(*last.0))).subrange(0, ns.len() as int) =~= ns);
    }
}

/// A node whose `with` lists decoding accepts is read back from its
/// structural form as itself, at any depth of the tree: the content shape,
/// every argument, and every style field, present or absent.
pub proof fn lemma_round_trip(c: TextComponent, depth: int)
    requires
        within_limits(c@, depth),
    ensures
        decode_node(model_node(c@), depth) == Ok::<TextModel, DecodeError>(c@),
    decreases c,
{
    broadcast use lemma_lookup_concat, lemma_lookup_one, lemma_lookup_str_entry;

    lemma_keys_distinct();
    let m = c@;
    let pre = content_entries(m.content);
    let post = style_entries(m.style);
    let es = pre + post;
    lemma_style_no_content_key(m.style, "text"@);
    lemma_style_no_content_key(m.style, "translate"@);
    lemma_style_no_content_key(m.style, "with"@);
    lemma_style_no_content_key(m.style, "selector"@);
    lemma_style_no_content_key(m.style, "separator"@);
    lemma_style_no_content_key(m.style, "keybind"@);
    match c.content {
        TextContent::Text { text } => {
            lemma_literal_round_trip(c, depth);
        },
        TextContent::Translate { translate, with } => {
            let wm = texts_model(with@);
            crate::text::lemma_texts_model_len(with@);
            assert forall|i: int| 0 <= i < pre.len() implies is_content_key(#[trigger] pre[i].0) by {}
            lemma_style_round_trip(pre, c.style);
            if wm.len() > 0 {
                assert(decreases_to!(c => c.content));
                assert(decreases_to!(c.content => c.content->Translate_with));
                lemma_texts_round_trip(with@, depth + 1);
                lemma_lookup_one("with"@, Node::List(models_nodes(wm)), "with"@);
                lemma_models_nodes_len(wm);
                assert(lookup(es, "with"@) == Some(Node::List(models_nodes(wm))));
            } else {
                assert(pre =~= seq![("translate"@, Node::Str(translate@))]);
                assert(lookup(es, "with"@) is None);
                assert(wm =~= seq![]);
            }
            assert(lookup(es, "text"@) is None);
            assert(lookup(es, "translate"@) == Some(Node::Str(translate@)));
            assert(decode_content(es, depth) == Ok::<ContentModel, DecodeError>(m.content));
        },
        TextContent::EntityNames { selector, separator } => {
            assert forall|i: int| 0 <= i < pre.len() implies is_content_key(#[trigger] pre[i].0) by {}
            lemma_style_round_trip(pre, c.style);
            assert(decode_content(es, depth) == Ok::<ContentModel, DecodeError>(m.content));
        },
        TextContent::Keybind { keybind } => {
            assert forall|i: int| 0 <= i < pre.len() implies is_content_key(#[trigger] pre[i].0) by {}
            lemma_style_round_trip(pre, c.style);
            assert(decode_content(es, depth) == Ok::<ContentModel, DecodeError>(m.content));
        },
    }
}

/// The keys that content shapes use.
pub open spec fn is_content_key(k: Seq<char>) -> bool {
    ||| k == "text"@
    ||| k == "translate"@
    ||| k == "with"@
    ||| k == "selector"@
    ||| k == "separator"@
    ||| k == "keybind"@
}

pub proof fn lemma_models_nodes_push(s: Seq<TextModel>, m: TextModel)
    ensures
        models_nodes(s.push(m)) == models_nodes(s).push(model_node(m)),
{
    assert(s.push(m).subrange(0, s.len() as int) =~= s);
}

// Encoding, executable.

fn push_entry(es: &mut Vec<(String, Value)>, key: &str, v: Value)
    ensures
        entries_nodes(final(es)@) == entries_nodes(old(es)@).push((key@, v@)),
{
    let ghost old_es = es@;
    let k = key.to_owned();
    let ghost e = (k, v);
    es.push((k, v));
    proof {
        lemma_entries_nodes_push(old_es, e);
    }
}

fn put_bool(es: &mut Vec<(String, Value)>, key: &str, o: Option<bool>)
    ensures
        entries_nodes(final(es)@) == entries_nodes(old(es)@) + bool_entry(key@, o),
{
    let ghost before = entries_nodes(es@);
    if let Some(b) = o {
        push_entry(es, key, Value::Bool(b));
        assert(entries_nodes(es@) =~= before + bool_entry(key@, o));
    } else {
        assert(entries_nodes(es@) =~= before + bool_entry(key@, o));
    }
}

fn put_str(es: &mut Vec<(String, Value)>, key: &str, o: &Option<String>)
    ensures
        entries_nodes(final(es)@) == entries_nodes(old(es)@) + str_entry(key@, opt_string_model(*o)),
{
    let ghost before = entries_nodes(es@);
    if let Some(s) = o {
        push_entry(es, key, Value::Str(s.clone()));
        assert(entries_nodes(es@) =~= before + str_entry(key@, opt_string_model(*o)));
    } else {
        assert(entries_nodes(es@) =~= before + str_entry(key@, opt_string_model(*o)));
    }
}

fn put_color(es: &mut Vec<(String, Value)>, o: Option<Color>)
    ensures
        entries_nodes(final(es)@) == entries_nodes(old(es)@) + color_entry(o),
{
    let ghost before = entries_nodes(es@);
    if let Some(c) = o {
        push_entry(es, "color", Value::Str(c.to_text()));
        assert(entries_nodes(es@) =~= before + color_entry(o));
    } else {
        assert(entries_nodes(es@) =~= before + color_entry(o));
    }
}

fn event_value(action: &str, value_key: &str, value: &String) -> (r: Value)
    ensures
        r@ == event_node(EventModel { action: action@, value: value@ }, value_key@),
{
    let mut es: Vec<(String, Value)> = Vec::new();
    push_entry(&mut es, "action", Value::Str(action.to_owned()));
    push_entry(&mut es, value_key, Value::Str(value.clone()));
    let r = Value::Compound(es);
    assert(entries_nodes(es@) =~= seq![
        ("action"@, Node::Str(action@)),
        (value_key@, Node::Str(value@)),
    ]);
    r
}

fn put_click(es: &mut Vec<(String, Value)>, o: &Option<ClickEvent>)
    ensures
        entries_nodes(final(es)@) == entries_nodes(old(es)@) + event_entry(
            "clickEvent"@,
            match *o {
                Some(e) => Some(click_model(e)),
                None => None,
            },
            "value"@,
        ),
{
    let ghost before = entries_nodes(es@);
    if let Some(e) = o {
        let v = event_value(e.action(), "value", e.value());
        push_entry(es, "clickEvent", v);
        assert(entries_nodes(es@) =~= before + event_entry("clickEvent"@, Some(click_model(*e)), "value"@));
    } else {
        assert(entries_nodes(es@) =~= before + event_entry("clickEvent"@, None, "value"@));
    }
}

fn put_hover(es: &mut Vec<(String, Value)>, o: &Option<HoverEvent>)
    ensures
        entries_nodes(final(es)@) == entries_nodes(old(es)@) + event_entry(
            "hoverEvent"@,
            match *o {
                Some(e) => Some(hover_model(e)),
                None => None,
            },
            "contents"@,
        ),
{
    let ghost before = entries_nodes(es@);
    if let Some(e) = o {
        let v = event_value(e.action(), "contents", e.contents());
        push_entry(es, "hoverEvent", v);
        assert(entries_nodes(es@) =~= before + event_entry("hoverEvent"@, Some(hover_model(*e)), "contents"@));
    } else {
        assert(entries_nodes(es@) =~= before + event_entry("hoverEvent"@, None, "contents"@));
    }
}

#[verifier::rlimit(60)]
fn put_style(es: &mut Vec<(String, Value)>, style: &Style)
    ensures
        entries_nodes(final(es)@) == entries_nodes(old(es)@) + style_entries(style@),
{
    let ghost m = style@;
    let ghost g0 = entries_nodes(es@);
    put_color(es, style.color);
    let ghost g1 = entries_nodes(es@);
    put_bool(es, "bold", style.bold);
    let ghost g2 = entries_nodes(es@);
    put_bool(es, "italic", style.italic);
    let ghost g3 = entries_nodes(es@);
    put_bool(es, "underlined", style.underlined);
    let ghost g4 = entries_nodes(es@);
    put_bool(es, "strikethrough", style.strikethrough);
    let ghost g5 = entries_nodes(es@);
    put_bool(es, "obfuscated", style.obfuscated);
    let ghost g6 = entries_nodes(es@);
    put_str(es, "insertion", &style.insertion);
    let ghost g7 = entries_nodes(es@);
    put_str(es, "font", &style.font);
    let ghost g8 = entries_nodes(es@);
    put_click(es, &style.click_event);
    let ghost g9 = entries_nodes(es@);
    put_hover(es, &style.hover_event);
    proof {
        let f1 = color_entry(m.color);
        let f2 = bool_entry("bold"@, m.bold);
        let f3 = bool_entry("italic"@, m.italic);
        let f4 = bool_entry("underlined"@, m.underlined);
        let f5 = bool_entry("strikethrough"@, m.strikethrough);
        let f6 = bool_entry("obfuscated"@, m.obfuscated);
        let f7 = str_entry("insertion"@, m.insertion);
        let f8 = str_entry("font"@, m.font);
        let f9 = event_entry("clickEvent"@, m.click_event, "value"@);
        let f10 = event_entry("hoverEvent"@, m.hover_event, "contents"@);
        let r9 = f9 + f10;
        let r8 = f8 + r9;
        let r7 = f7 + r8;
        let r6 = f6 + r7;
        let r5 = f5 + r6;
        let r4 = f4 + r5;
        let r3 = f3 + r4;
        let r2 = f2 + r3;
        let r1 = f1 + r2;
        assert(g9 + f10 =~= g8 + r9);
        assert(g8 + r9 =~= g7 + r8);
        assert(g7 + r8 =~= g6 + r7);
        assert(g6 + r7 =~= g5 + r6);
        assert(g5 + r6 =~= g4 + r5);
        assert(g4 + r5 =~= g3 + r4);
        assert(g3 + r4 =~= g2 + r3);
        assert(g2 + r3 =~= g1 + r2);
        assert(g1 + r2 =~= g0 + r1);
        assert(r1 == style_entries(m));
    }
}

impl TextComponent {
    /// The structural form of this node: the keys of its content shape,
    /// then the keys of its present style fields.
    pub fn to_value(&self) -> (r: Value)
        ensures
            r@ == model_node(self@),
        decreases self,
    {
        let mut es: Vec<(String, Value)> = Vec::new();
        assert(entries_nodes(es@) =~= seq![]);
        match &self.content {
            TextContent::Text { text } => {
                push_entry(&mut es, "text", Value::Str(text.clone()));
            },
            TextContent::Translate { translate, with } => {
                push_entry(&mut es, "translate", Value::Str(translate.clone()));
                proof {
                    lemma_texts_model_len(with@);
                }
                if with.len() > 0 {
                    let mut items: Vec<Value> = Vec::new();
                    let mut i: usize = 0;
                    assert(with@.subrange(0, 0) =~= seq![]);
                    while i < with.len()
                        invariant
                            0 <= i <= with.len(),
                            values_nodes(items@) == models_nodes(texts_model(with@.subrange(0, i as int))),
                            self.content == (TextContent::Translate { translate: *translate, with: *with }),
                        decreases with.len() - i,
                    {
                        proof {
                            vstd::std_specs::vec::axiom_vec_index_decreases(*with, i as int);
                            assert(self.content->Translate_with == *with);
                            assert(decreases_to!(*self => self.content));
                            assert(decreases_to!(self.content => self.content->Translate_with));
                            assert(decreases_to!(*with => with@[i as int]));
                            assert(decreases_to!(with@[i as int] => *with@[i as int].0));
                            assert(decreases_to!(*self => *with@[i as int].0));
                        }
                        let v = with[i].0.to_value();
                        proof {
                            lemma_values_nodes_push(items@, v);
                            lemma_texts_model_prefix(with@, i as int);
                            lemma_models_nodes_push(texts_model(with@.subrange(0, i as int)), component_model(*with@[i as int].0));
                        }
                        items.push(v);
                        i = i + 1;
                    }
                    assert(with@.subrange(0, with.len() as int) =~= with@);
                    push_entry(&mut es, "with", Value::List(items));
                }
            },
            TextContent::EntityNames { selector, separator } => {
                push_entry(&mut es, "selector", Value::Str(selector.clone()));
                put_str(&mut es, "separator", separator);
            },
            TextContent::Keybind { keybind } => {
                push_entry(&mut es, "keybind", Value::Str(keybind.clone()));
            },
        }
        let ghost ce = entries_nodes(es@);
        assert(ce =~= content_entries(self@.content));
        put_style(&mut es, &self.style);
        Value::Compound(es)
    }
}

// Decoding, executable.

pub proof fn lemma_decode_nodes_prefix(s: Seq<Node>, i: int, depth: int)
    requires
        0 <= i < s.len(),
    ensures
        decode_nodes(s.subrange(0, i + 1), depth) == match decode_nodes(s.subrange(0, i), depth) {
            Err(e) => Err(e),
            Ok(ms) => match decode_node(s[i], depth) {
                Err(e) => Err(e),
                Ok(m) => Ok(ms.push(m)),
            },
        },
{
    assert(s.subrange(0, i + 1).subrange(0, i) =~= s.subrange(0, i));
}

pub proof fn lemma_decode_nodes_err(s: Seq<Node>, i: int, depth: int)
    requires
        0 <= i <= s.len(),
        decode_nodes(s.subrange(0, i), depth) is Err,
    ensures
        decode_nodes(s, depth) == decode_nodes(s.subrange(0, i), depth),
    decreases s.len() - i,
{
    if i == s.len() {
        assert(s.subrange(0, i) =~= s);
    } else {
        lemma_decode_nodes_prefix(s, i, depth);
        lemma_decode_nodes_err(s, i + 1, depth);
    }
}

pub open spec fn entries_of(v: Value) -> Seq<(Seq<char>, Node)> {
    v@->Compound_0
}

fn bool_from(v: &Value, key: &str) -> (r: Result<Option<bool>, DecodeError>)
    requires
        v@ is Compound,
    ensures
        r == bool_field(entries_of(*v), key@),
{
    match v.get(key) {
        None => Ok(None),
        Some(Value::Bool(b)) => Ok(Some(*b)),
        Some(_) => Err(DecodeError::MalformedStyleField),
    }
}

fn str_from(v: &Value, key: &str) -> (r: Result<Option<String>, DecodeError>)
    requires
        v@ is Compound,
    ensures
        match r {
            Ok(o) => str_field(entries_of(*v), key@) == Ok::<Option<Seq<char>>, DecodeError>(
                opt_string_model(o),
            ),
            Err(e) => str_field(entries_of(*v), key@) == Err::<Option<Seq<char>>, DecodeError>(e),
        },
{
    match v.get(key) {
        None => Ok(None),
        Some(Value::Str(s)) => Ok(Some(s.clone())),
        Some(_) => Err(DecodeError::MalformedStyleField),
    }
}

fn color_from(v: &Value) -> (r: Result<Option<Color>, DecodeError>)
    requires
        v@ is Compound,
    ensures
        r == color_field(entries_of(*v)),
{
    match v.get("color") {
        None => Ok(None),
        Some(Value::Str(s)) => match Color::from_text(s.as_str()) {
            Some(c) => Ok(Some(c)),
            None => Err(DecodeError::MalformedStyleField),
        },
        Some(_) => Err(DecodeError::MalformedStyleField),
    }
}

fn click_from(v: &Value) -> (r: Result<Option<ClickEvent>, DecodeError>)
    requires
        v@ is Compound,
    ensures
        match r {
            Ok(o) => event_field(entries_of(*v), "clickEvent"@, "value"@, true) == Ok::<
                Option<EventModel>,
                DecodeError,
            >(
                match o {
                    Some(e) => Some(click_model(e)),
                    None => None,
                },
            ),
            Err(e) => event_field(entries_of(*v), "clickEvent"@, "value"@, true) == Err::<
                Option<EventModel>,
                DecodeError,
            >(e),
        },
{
    match v.get("clickEvent") {
        None => Ok(None),
        Some(inner) => {
            if let Value::Compound(_) = inner {
                match (inner.get("action"), inner.get("value")) {
                    (Some(Value::Str(a)), Some(Value::Str(x))) => match ClickEvent::from_action(
                        a.as_str(),
                        x.clone(),
                    ) {
                        Some(e) => Ok(Some(e)),
                        None => Err(DecodeError::MalformedStyleField),
                    },
                    _ => Err(DecodeError::MalformedStyleField),
                }
            } else {
                Err(DecodeError::MalformedStyleField)
            }
        },
    }
}

fn hover_from(v: &Value) -> (r: Result<Option<HoverEvent>, DecodeError>)
    requires
        v@ is Compound,
    ensures
        match r {
            Ok(o) => event_field(entries_of(*v), "hoverEvent"@, "contents"@, false) == Ok::<
                Option<EventModel>,
                DecodeError,
            >(
                match o {
                    Some(e) => Some(hover_model(e)),
                    None => None,
                },
            ),
            Err(e) => event_field(entries_of(*v), "hoverEvent"@, "contents"@, false) == Err::<
                Option<EventModel>,
                DecodeError,
            >(e),
        },
{
    match v.get("hoverEvent") {
        None => Ok(None),
        Some(inner) => {
            if let Value::Compound(_) = inner {
                match (inner.get("action"), inner.get("contents")) {
                    (Some(Value::Str(a)), Some(Value::Str(x))) => match HoverEvent::from_action(
                        a.as_str(),
                        x.clone(),
                    ) {
                        Some(e) => Ok(Some(e)),
                        None => Err(DecodeError::MalformedStyleField),
                    },
                    _ => Err(DecodeError::MalformedStyleField),
                }
            } else {
                Err(DecodeError::MalformedStyleField)
            }
        },
    }
}

fn style_from(v: &Value) -> (r: Result<Style, DecodeError>)
    requires
        v@ is Compound,
    ensures
        match r {
            Ok(s) => decode_style(entries_of(*v)) == Ok::<StyleModel, DecodeError>(s@),
            Err(e) => decode_style(entries_of(*v)) == Err::<StyleModel, DecodeError>(e),
        },
{
    let color = color_from(v);
    let bold = bool_from(v, "bold");
    let italic = bool_from(v, "italic");
    let underlined = bool_from(v, "underlined");
    let strikethrough = bool_from(v, "strikethrough");
    let obfuscated = bool_from(v, "obfuscated");
    let insertion = str_from(v, "insertion");
    let font = str_from(v, "font");
    let click_event = click_from(v);
    let hover_event = hover_from(v);
    match (color, bold, italic, underlined, strikethrough, obfuscated) {
        (Ok(color), Ok(bold), Ok(italic), Ok(underlined), Ok(strikethrough), Ok(obfuscated)) => {
            match (insertion, font, click_event, hover_event) {
                (Ok(insertion), Ok(font), Ok(click_event), Ok(hover_event)) => Ok(
                    Style {
                        color,
                        bold,
                        italic,
                        underlined,
                        strikethrough,
                        obfuscated,
                        insertion,
                        font,
                        click_event,
                        hover_event,
                    },
                ),
                _ => Err(DecodeError::MalformedStyleField),
            }
        },
        _ => Err(DecodeError::MalformedStyleField),
    }
}

fn content_from(v: &Value, depth: usize) -> (r: Result<TextContent, DecodeError>)
    requires
        v@ is Compound,
        depth <= MAX_DEPTH,
    ensures
        match r {
            Ok(c) => decode_content(entries_of(*v), depth as int) == Ok::<ContentModel, DecodeError>(
                content_model(c),
            ),
            Err(e) => decode_content(entries_of(*v), depth as int) == Err::<ContentModel, DecodeError>(
                e,
            ),
        },
    decreases MAX_DEPTH + 1 - depth, 0int,
{
    match v.get("text") {
        Some(Value::Str(text)) => {
            return Ok(TextContent::Text { text: text.clone() });
        },
        Some(_) => {
            return Err(DecodeError::MalformedContent);
        },
        None => {},
    }
    match v.get("translate") {
        Some(Value::Str(translate)) => {
            return match v.get("with") {
                None => {
                    let with: Vec<Text> = Vec::new();
                    assert(texts_model(with@) =~= seq![]);
                    Ok(TextContent::Translate { translate: translate.clone(), with })
                },
                Some(Value::List(items)) => {
                    proof {
                        lemma_values_nodes_len(items@);
                    }
                    if items.len() > MAX_ITEMS {
                        Err(DecodeError::SizeLimitExceeded)
                    } else if depth + 1 > MAX_DEPTH {
                        Err(DecodeError::DepthLimitExceeded)
                    } else {
                        match texts_from(items, depth + 1) {
                            Ok(with) => Ok(TextContent::Translate { translate: translate.clone(), with }),
                            Err(e) => Err(e),
                        }
                    }
                },
                Some(_) => Err(DecodeError::MalformedContent),
            };
        },
        Some(_) => {
            return Err(DecodeError::MalformedContent);
        },
        None => {},
    }
    match v.get("selector") {
        Some(Value::Str(selector)) => {
            return match v.get("separator") {
                None => Ok(TextContent::EntityNames { selector: selector.clone(), separator: None }),
                Some(Value::Str(s)) => Ok(
                    TextContent::EntityNames { selector: selector.clone(), separator: Some(s.clone()) },
                ),
                Some(_) => Err(DecodeError::MalformedContent),
            };
        },
        Some(_) => {
            return Err(DecodeError::MalformedContent);
        },
        None => {},
    }
    match v.get("keybind") {
        Some(Value::Str(keybind)) => Ok(TextContent::Keybind { keybind: keybind.clone() }),
        Some(_) => Err(DecodeError::MalformedContent),
        None => Err(DecodeError::UnknownContentShape),
    }
}

fn texts_from(items: &Vec<Value>, depth: usize) -> (r: Result<Vec<Text>, DecodeError>)
    requires
        1 <= depth <= MAX_DEPTH,
    ensures
        match r {
            Ok(ts) => decode_nodes(values_nodes(items@), depth as int) == Ok::<
                Seq<TextModel>,
                DecodeError,
            >(texts_model(ts@)),
            Err(e) => decode_nodes(values_nodes(items@), depth as int) == Err::<
                Seq<TextModel>,
                DecodeError,
            >(e),
        },
    decreases MAX_DEPTH + 1 - depth, 2int,
{
    let ghost nodes = values_nodes(items@);
    proof {
        lemma_values_nodes_len(items@);
    }
    let mut out: Vec<Text> = Vec::new();
    let mut i: usize = 0;
    assert(nodes.subrange(0, 0) =~= seq![]);
    while i < items.len()
        invariant
            0 <= i <= items.len(),
            1 <= depth <= MAX_DEPTH,
            nodes == values_nodes(items@),
            nodes.len() == items@.len(),
            forall|j: int| 0 <= j < items@.len() ==> #[trigger] nodes[j] == items@[j]@,
            decode_nodes(nodes.subrange(0, i as int), depth as int) == Ok::<
                Seq<TextModel>,
                DecodeError,
            >(texts_model(out@)),
        decreases items.len() - i,
    {
        proof {
            lemma_decode_nodes_prefix(nodes, i as int, depth as int);
        }
        match TextComponent::from_value_at(&items[i], depth) {
            Ok(c) => {
                let t = Text(Box::new(c));
                proof {
                    lemma_texts_model_push(out@, t);
                }
                out.push(t);
            },
            Err(e) => {
                proof {
                    lemma_decode_nodes_err(nodes, i as int + 1, depth as int);
                }
                return Err(e);
            },
        }
        i = i + 1;
    }
    assert(nodes.subrange(0, items.len() as int) =~= nodes);
    Ok(out)
}

impl TextComponent {
    fn from_value_at(v: &Value, depth: usize) -> (r: Result<TextComponent, DecodeError>)
        requires
            depth <= MAX_DEPTH,
        ensures
            match r {
                Ok(c) => decode_node(v@, depth as int) == Ok::<TextModel, DecodeError>(c@),
                Err(e) => decode_node(v@, depth as int) == Err::<TextModel, DecodeError>(e),
            },
        decreases MAX_DEPTH + 1 - depth, 1int,
    {
        if let Value::Compound(_) = v {
            let content = match content_from(v, depth) {
                Ok(c) => c,
                Err(e) => {
                    return Err(e);
                },
            };
            let style = match style_from(v) {
                Ok(s) => s,
                Err(e) => {
                    return Err(e);
                },
            };
            Ok(TextComponent { content, style })
        } else {
            Err(DecodeError::MalformedContent)
        }
    }

    /// Reads a text node from its structural form. The content shape is
    /// the first of `text`, `translate`, `selector`, `keybind` whose key is
    /// present; style keys that are absent leave their field absent, and
    /// keys that neither has are ignored.
    pub fn from_value(v: &Value) -> (r: Result<TextComponent, DecodeError>)
        ensures
            match r {
                Ok(c) => decode_node(v@, 0) == Ok::<TextModel, DecodeError>(c@),
                Err(e) => decode_node(v@, 0) == Err::<TextModel, DecodeError>(e),
            },
    {
        TextComponent::from_value_at(v, 0)
    }
}

} // verus!
