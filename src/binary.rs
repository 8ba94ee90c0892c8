//! The binary record form: an unnamed compound in the game's tagged binary
//! format. Each field is a tag byte, its name and its payload; strings are
//! a big-endian 16-bit byte length and UTF-8; lists are the tag of their
//! elements, a big-endian 32-bit count and the payloads; a compound ends
//! with a zero byte.
use vstd::prelude::*;

use crate::structural::model_node;
use crate::text::{TextComponent, TextModel};
use crate::value::{entries_nodes, lemma_entries_nodes_len, lemma_values_nodes_len, values_nodes, Node, Value};

verus! {

/// Why a value has no binary form.
#[derive(Clone, Copy, Debug, PartialEq, Eq, Structural)]
pub enum EncodeError {
    /// A string or key is longer than 65535 bytes in UTF-8.
    StringTooLong,
    /// A list has more than 2147483647 elements.
    ListTooLong,
}

pub const TAG_END: u8 = 0;
pub const TAG_BYTE: u8 = 1;
pub const TAG_STRING: u8 = 8;
pub const TAG_LIST: u8 = 9;
pub const TAG_COMPOUND: u8 = 10;

/// The UTF-8 encoding of a character.
pub open spec fn utf8_char(c: char) -> Seq<u8> {
    let n = c as u32;
    if n < 0x80 {
        seq![n as u8]
    } else if n < 0x800 {
        seq![(0xC0 + n / 64) as u8, (0x80 + n % 64) as u8]
    } else if n < 0x10000 {
        seq![(0xE0 + n / 4096) as u8, (0x80 + n / 64 % 64) as u8, (0x80 + n % 64) as u8]
    } else {
        seq![
            (0xF0 + n / 262144) as u8,
            (0x80 + n / 4096 % 64) as u8,
            (0x80 + n / 64 % 64) as u8,
            (0x80 + n % 64) as u8,
        ]
    }
}

/// The UTF-8 encoding of a string.
pub open spec fn utf8(s: Seq<char>) -> Seq<u8>
    decreases s.len(),
{
    if s.len() == 0 {
        seq![]
    } else {
        utf8(s.subrange(0, s.len() - 1)) + utf8_char(s[s.len() - 1])
    }
}

/// Relies on `str::as_bytes`: a `str` is stored as its UTF-8 encoding.
#[verifier::external_body]
fn utf8_bytes(s: &str) -> (r: &[u8])
    ensures
        r@ == utf8(s@),
{
    s.as_bytes()
}

pub open spec fn be16(n: nat) -> Seq<u8> {
    seq![(n / 256) as u8, (n % 256) as u8]
}

pub open spec fn be32(n: nat) -> Seq<u8> {
    seq![(n / 16777216 % 256) as u8, (n / 65536 % 256) as u8, (n / 256 % 256) as u8, (n % 256) as u8]
}

/// A string: its byte length, then its bytes.
pub open spec fn string_bytes(s: Seq<char>) -> Seq<u8> {
    be16(utf8(s).len()) + utf8(s)
}

pub open spec fn tag_of(n: Node) -> u8 {
    match n {
        Node::Bool(_) => TAG_BYTE,
        Node::Str(_) => TAG_STRING,
        Node::List(_) => TAG_LIST,
        Node::Compound(_) => TAG_COMPOUND,
    }
}

/// The payload of a value, without its tag.
pub open spec fn payload(n: Node) -> Seq<u8>
    decreases n,
{
    match n {
        Node::Bool(b) => seq![if b { 1u8 } else { 0u8 }],
        Node::Str(s) => string_bytes(s),
        Node::List(items) => seq![
            if items.len() == 0 {
                TAG_END
            } else {
                tag_of(items[0])
            },
        ] + be32(items.len()) + payloads(items),
        Node::Compound(es) => fields(es) + seq![TAG_END],
    }
}

pub open spec fn payloads(items: Seq<Node>) -> Seq<u8>
    decreases items,
{
    if items.len() == 0 {
        seq![]
    } else {
        payloads(items.subrange(0, items.len() - 1)) + payload(items[items.len() - 1])
    }
}

/// The fields of a compound: each one's tag, name and payload.
pub open spec fn fields(es: Seq<(Seq<char>, Node)>) -> Seq<u8>
    decreases es,
{
    if es.len() == 0 {
        seq![]
    } else {
        let e = es[es.len() - 1];
        fields(es.subrange(0, es.len() - 1)) + seq![tag_of(e.1)] + string_bytes(e.0) + payload(e.1)
    }
}

/// Whether every string of a value fits a 16-bit length and every list a
/// 32-bit signed count.
pub open spec fn fits(n: Node) -> bool
    decreases n,
{
    match n {
        Node::Bool(_) => true,
        Node::Str(s) => utf8(s).len() <= 65535,
        Node::List(items) => items.len() <= 2147483647 && all_fit(items),
        Node::Compound(es) => entries_fit(es),
    }
}

pub open spec fn all_fit(items: Seq<Node>) -> bool
    decreases items,
{
    if items.len() == 0 {
        true
    } else {
        all_fit(items.subrange(0, items.len() - 1)) && fits(items[items.len() - 1])
    }
}

pub open spec fn entries_fit(es: Seq<(Seq<char>, Node)>) -> bool
    decreases es,
{
    if es.len() == 0 {
        true
    } else {
        let e = es[es.len() - 1];
        entries_fit(es.subrange(0, es.len() - 1)) && utf8(e.0).len() <= 65535 && fits(e.1)
    }
}

/// The binary record form of a text node: the compound tag, then the
/// fields of its structural form, without a name.
pub open spec fn binary_form(m: TextModel) -> Seq<u8> {
    seq![TAG_COMPOUND] + payload(model_node(m))
}

fn write_bytes(out: &mut Vec<u8>, b: &[u8])
    ensures
        final(out)@ == old(out)@ + b@,
{
    let mut i: usize = 0;
    while i < b.len()
        invariant
            0 <= i <= b@.len(),
            out@ == old(out)@ + b@.subrange(0, i as int),
        decreases b.len() - i,
    {
        out.push(b[i]);
        i = i + 1;
        assert(out@ =~= old(out)@ + b@.subrange(0, i as int));
    }
    assert(b@.subrange(0, b@.len() as int) =~= b@);
}

fn write_string(out: &mut Vec<u8>, s: &str) -> (r: Result<(), EncodeError>)
    ensures
        r is Ok <==> utf8(s@).len() <= 65535,
        r is Ok ==> final(out)@ == old(out)@ + string_bytes(s@),
{
    let b = utf8_bytes(s);
    if b.len() > 65535 {
        return Err(EncodeError::StringTooLong);
    }
    let n = b.len() as u16;
    out.push((n / 256) as u8);
    out.push((n % 256) as u8);
    write_bytes(out, b);
    assert(out@ =~= old(out)@ + string_bytes(s@));
    Ok(())
}

fn tag(v: &Value) -> (r: u8)
    ensures
        r == tag_of(v@),
{
    match v {
        Value::Bool(_) => TAG_BYTE,
        Value::Str(_) => TAG_STRING,
        Value::List(_) => TAG_LIST,
        Value::Compound(_) => TAG_COMPOUND,
    }
}

proof fn lemma_prefix<A>(s: Seq<A>, i: int)
    requires
        0 <= i < s.len(),
    ensures
        s.subrange(0, i + 1).subrange(0, i) == s.subrange(0, i),
        s.subrange(0, i + 1)[i] == s[i],
        s.subrange(0, i + 1).len() == i + 1,
{
    assert(s.subrange(0, i + 1).subrange(0, i) =~= s.subrange(0, i));
}

proof fn lemma_all_fit_prefix(s: Seq<Node>, i: int)
    requires
        0 <= i <= s.len(),
        all_fit(s),
    ensures
        all_fit(s.subrange(0, i)),
    decreases s.len() - i,
{
    if i < s.len() {
        lemma_all_fit_prefix(s, i + 1);
        lemma_prefix(s, i);
    } else {
        assert(s.subrange(0, i) =~= s);
    }
}

proof fn lemma_entries_fit_prefix(s: Seq<(Seq<char>, Node)>, i: int)
    requires
        0 <= i <= s.len(),
        entries_fit(s),
    ensures
        entries_fit(s.subrange(0, i)),
    decreases s.len() - i,
{
    if i < s.len() {
        lemma_entries_fit_prefix(s, i + 1);
        lemma_prefix(s, i);
    } else {
        assert(s.subrange(0, i) =~= s);
    }
}

impl Value {
    /// Appends the payload of this value to `out`. Fails exactly where a
    /// string or a list is too long for its length field.
    pub fn write_payload(&self, out: &mut Vec<u8>) -> (r: Result<(), EncodeError>)
        ensures
            r is Ok <==> fits(self@),
            r is Ok ==> final(out)@ == old(out)@ + payload(self@),
        decreases self,
    {
        match self {
            Value::Bool(b) => {
                out.push(if *b { 1u8 } else { 0u8 });
                assert(out@ =~= old(out)@ + payload(self@));
                Ok(())
            },
            Value::Str(s) => write_string(out, s.as_str()),
            Value::List(items) => {
                let ghost nodes = values_nodes(items@);
                proof {
                    lemma_values_nodes_len(items@);
                }
                if items.len() > 2147483647 {
                    return Err(EncodeError::ListTooLong);
                }
                let t = if items.len() == 0 { TAG_END } else { tag(&items[0]) };
                out.push(t);
                let n = items.len() as u32;
                out.push((n / 16777216 % 256) as u8);
                out.push((n / 65536 % 256) as u8);
                out.push((n / 256 % 256) as u8);
                out.push((n % 256) as u8);
                let ghost head = out@;
                assert(head =~= old(out)@ + (seq![t] + be32(items@.len())));
                let mut i: usize = 0;
                assert(nodes.subrange(0, 0) =~= seq![]);
                while i < items.len()
                    invariant
                        0 <= i <= items.len(),
                        nodes == values_nodes(items@),
                        nodes.len() == items@.len(),
                        forall|j: int| 0 <= j < items@.len() ==> #[trigger] nodes[j] == items@[j]@,
                        *self == Value::List(*items),
                        all_fit(nodes.subrange(0, i as int)),
                        out@ == head + payloads(nodes.subrange(0, i as int)),
                    decreases items.len() - i,
                {
                    proof {
                        vstd::std_specs::vec::axiom_vec_index_decreases(*items, i as int);
                        assert(decreases_to!(*self => self->List_0));
                        assert(decreases_to!(*self => items@[i as int]));
                        lemma_prefix(nodes, i as int);
                    }
                    let ghost before = out@;
                    match items[i].write_payload(out) {
                        Ok(()) => {},
                        Err(e) => {
                            proof {
                                if all_fit(nodes) {
                                    lemma_all_fit_prefix(nodes, i as int + 1);
                                }
                            }
                            return Err(e);
                        },
                    }
                    i = i + 1;
                    assert(out@ =~= head + payloads(nodes.subrange(0, i as int)));
                }
                assert(nodes.subrange(0, items.len() as int) =~= nodes);
                assert(out@ =~= old(out)@ + payload(self@));
                Ok(())
            },
            Value::Compound(entries) => {
                let ghost es = entries_nodes(entries@);
                proof {
                    lemma_entries_nodes_len(entries@);
                }
                let ghost head = out@;
                let mut i: usize = 0;
                assert(es.subrange(0, 0) =~= seq![]);
                assert(out@ =~= head + fields(es.subrange(0, 0)));
                while i < entries.len()
                    invariant
                        0 <= i <= entries.len(),
                        es == entries_nodes(entries@),
                        es.len() == entries@.len(),
                        forall|j: int|
                            0 <= j < entries@.len() ==> #[trigger] es[j] == (
                                entries@[j].0@,
                                entries@[j].1@,
                            ),
                        *self == Value::Compound(*entries),
                        head == old(out)@,
                        entries_fit(es.subrange(0, i as int)),
                        out@ == head + fields(es.subrange(0, i as int)),
                    decreases entries.len() - i,
                {
                    proof {
                        vstd::std_specs::vec::axiom_vec_index_decreases(*entries, i as int);
                        lemma_prefix(es, i as int);
                    }
                    let ghost before = out@;
                    let v = &entries[i].1;
                    out.push(tag(v));
                    let w = write_string(out, entries[i].0.as_str());
                    if w.is_err() {
                        proof {
                            if entries_fit(es) {
                                lemma_entries_fit_prefix(es, i as int + 1);
                            }
                        }
                        return w;
                    }
                    match v.write_payload(out) {
                        Ok(()) => {},
                        Err(e) => {
                            proof {
                                if entries_fit(es) {
                                    lemma_entries_fit_prefix(es, i as int + 1);
                                }
                            }
                            return Err(e);
                        },
                    }
                    i = i + 1;
                    assert(out@ =~= head + fields(es.subrange(0, i as int)));
                }
                assert(es.subrange(0, entries.len() as int) =~= es);
                out.push(TAG_END);
                assert(out@ =~= old(out)@ + payload(self@));
                Ok(())
            },
        }
    }
}

impl TextComponent {
    /// The binary record form of this node: an unnamed compound holding
    /// the keys of its structural form in the same order. Fails exactly
    /// where a string or list is too long for the format.
    pub fn encode(&self) -> (r: Result<Vec<u8>, EncodeError>)
        ensures
            r is Ok <==> fits(model_node(self@)),
            r matches Ok(b) ==> b@ == binary_form(self@),
    {
        let v = self.to_value();
        let mut out: Vec<u8> = Vec::new();
        out.push(TAG_COMPOUND);
        match v.write_payload(&mut out) {
            Ok(()) => {
                assert(out@ =~= binary_form(self@));
                Ok(out)
            },
            Err(e) => Err(e),
        }
    }
}

/// Equal nodes have equal binary forms: the form depends on the node's
/// content and style alone.
pub proof fn lemma_encode_deterministic(a: TextComponent, b: TextComponent)
    requires
        a@ == b@,
    ensures
        binary_form(a@) == binary_form(b@),
        fits(model_node(a@)) == fits(model_node(b@)),
{
}

} // verus!
