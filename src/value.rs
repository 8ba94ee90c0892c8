//! The generic structured value that the structural form of text is written in.
use vstd::prelude::*;

verus! {

/// A key/value structured value.
#[derive(Debug, PartialEq, Eq)]
pub enum Value {
    Bool(bool),
    Str(String),
    List(Vec<Value>),
    Compound(Vec<(String, Value)>),
}

/// A structured value as a mathematical value.
pub enum Node {
    Bool(bool),
    Str(Seq<char>),
    List(Seq<Node>),
    Compound(Seq<(Seq<char>, Node)>),
}

pub open spec fn value_node(v: Value) -> Node
    decreases v,
{
    match v {
        Value::Bool(b) => Node::Bool(b),
        Value::Str(s) => Node::Str(s@),
        Value::List(items) => Node::List(values_nodes(items@)),
        Value::Compound(entries) => Node::Compound(entries_nodes(entries@)),
    }
}

pub open spec fn values_nodes(s: Seq<Value>) -> Seq<Node>
    decreases s,
{
    if s.len() == 0 {
        Seq::empty()
    } else {
        values_nodes(s.subrange(0, s.len() - 1)).push(value_node(s[s.len() - 1]))
    }
}

pub open spec fn entries_nodes(s: Seq<(String, Value)>) -> Seq<(Seq<char>, Node)>
    decreases s,
{
    if s.len() == 0 {
        Seq::empty()
    } else {
        entries_nodes(s.subrange(0, s.len() - 1)).push(
            (s[s.len() - 1].0@, value_node(s[s.len() - 1].1)),
        )
    }
}

impl View for Value {
    type V = Node;

    open spec fn view(&self) -> Node {
        value_node(*self)
    }
}

pub proof fn lemma_values_nodes_push(s: Seq<Value>, v: Value)
    ensures
        values_nodes(s.push(v)) == values_nodes(s).push(value_node(v)),
{
    assert(s.push(v).subrange(0, s.len() as int) =~= s);
}

pub proof fn lemma_entries_nodes_push(s: Seq<(String, Value)>, e: (String, Value))
    ensures
        entries_nodes(s.push(e)) == entries_nodes(s).push((e.0@, value_node(e.1))),
{
    assert(s.push(e).subrange(0, s.len() as int) =~= s);
}

pub proof fn lemma_values_nodes_len(s: Seq<Value>)
    ensures
        values_nodes(s).len() == s.len(),
        forall|i: int| 0 <= i < s.len() ==> #[trigger] values_nodes(s)[i] == value_node(s[i]),
    decreases s.len(),
{
    if s.len() > 0 {
        lemma_values_nodes_len(s.subrange(0, s.len() - 1));
    }
}

pub proof fn lemma_entries_nodes_len(s: Seq<(String, Value)>)
    ensures
        entries_nodes(s).len() == s.len(),
        forall|i: int|
            0 <= i < s.len() ==> #[trigger] entries_nodes(s)[i] == (s[i].0@, value_node(s[i].1)),
    decreases s.len(),
{
    if s.len() > 0 {
        lemma_entries_nodes_len(s.subrange(0, s.len() - 1));
    }
}

/// The value under the first entry whose key is `k`.
pub open spec fn lookup(es: Seq<(Seq<char>, Node)>, k: Seq<char>) -> Option<Node>
    decreases es.len(),
{
    if es.len() == 0 {
        None
    } else if es[0].0 == k {
        Some(es[0].1)
    } else {
        lookup(es.subrange(1, es.len() as int), k)
    }
}

/// The index of the first entry whose key is `k`, if any.
pub open spec fn first_index(es: Seq<(Seq<char>, Node)>, k: Seq<char>, i: int) -> bool {
    &&& 0 <= i < es.len()
    &&& es[i].0 == k
    &&& forall|j: int| 0 <= j < i ==> es[j].0 != k
}

pub proof fn lemma_lookup_at(es: Seq<(Seq<char>, Node)>, k: Seq<char>, i: int)
    requires
        first_index(es, k, i),
    ensures
        lookup(es, k) == Some(es[i].1),
    decreases i,
{
    if i > 0 {
        lemma_lookup_at(es.subrange(1, es.len() as int), k, i - 1);
    }
}

pub proof fn lemma_lookup(es: Seq<(Seq<char>, Node)>, k: Seq<char>)
    ensures
        lookup(es, k) is None <==> (forall|j: int| 0 <= j < es.len() ==> es[j].0 != k),
        forall|i: int| first_index(es, k, i) ==> lookup(es, k) == Some(es[i].1),
    decreases es.len(),
{
    if es.len() > 0 {
        let rest = es.subrange(1, es.len() as int);
        lemma_lookup(rest, k);
        assert forall|i: int| first_index(es, k, i) implies lookup(es, k) == Some(es[i].1) by {
            if i > 0 {
                assert(first_index(rest, k, i - 1));
            }
        }
        if es[0].0 != k {
            assert((forall|j: int| 0 <= j < es.len() ==> es[j].0 != k) ==> (forall|j: int|
                0 <= j < rest.len() ==> rest[j].0 != k));
            assert((forall|j: int| 0 <= j < rest.len() ==> rest[j].0 != k) ==> (forall|j: int|
                0 <= j < es.len() ==> es[j].0 != k)) by {
                if forall|j: int| 0 <= j < rest.len() ==> rest[j].0 != k {
                    assert forall|j: int| 0 <= j < es.len() implies es[j].0 != k by {
                        if j > 0 {
                            assert(rest[j - 1] == es[j]);
                        }
                    }
                }
            }
        }
    }
}

/// Whether `a` and `b` hold the same characters.
pub fn same_text(a: &str, b: &str) -> (r: bool)
    ensures
        r == (a@ == b@),
{
    a.to_owned() == b.to_owned()
}

impl Value {
    /// The value under the first entry of a compound whose key is `key`;
    /// `None` where there is no such entry or the value is no compound.
    pub fn get<'a>(&'a self, key: &str) -> (r: Option<&'a Value>)
        ensures
            match self@ {
                Node::Compound(es) => match r {
                    Some(v) => lookup(es, key@) == Some(v@),
                    None => lookup(es, key@) is None,
                },
                _ => r is None,
            },
    {
        match self {
            Value::Compound(entries) => {
                proof {
                    lemma_entries_nodes_len(entries@);
                    lemma_lookup(entries_nodes(entries@), key@);
                }
                let ghost es = entries_nodes(entries@);
                let mut i: usize = 0;
                while i < entries.len()
                    invariant
                        0 <= i <= entries.len(),
                        es == entries_nodes(entries@),
                        value_node(*self) == Node::Compound(es),
                        es.len() == entries@.len(),
                        forall|j: int|
                            0 <= j < entries@.len() ==> #[trigger] es[j] == (
                                entries@[j].0@,
                                value_node(entries@[j].1),
                            ),
                        forall|j: int| 0 <= j < i ==> es[j].0 != key@,
                    decreases entries.len() - i,
                {
                    assert(es[i as int] == (entries@[i as int].0@, value_node(entries@[i as int].1)));
                    if same_text(entries[i].0.as_str(), key) {
                        proof {
                            lemma_lookup_at(es, key@, i as int);
                        }
                        return Some(&entries[i].1);
                    }
                    i = i + 1;
                }
                None
            },
            _ => None,
        }
    }
}

} // verus!
