//! JSON documents: the library's own tree, read and written through
//! `serde_json`.
//!
//! A document is reasoned about as a [`Tree`]: numbers are integers wherever
//! they can be, and an object is a map from names to documents. Reading text
//! into a tree and writing a tree out as text is the outside crate's work and
//! carries a name; everything in between is verified.

use crate::text;
use vstd::prelude::*;

verus! {

/// `serde_json::Number`: a number of any kind. What it holds is [`numeric`].
#[verifier::external_type_specification]
#[verifier::external_body]
pub struct ExNumber(serde_json::Number);

/// `serde_json::Value`: a document in the outside crate's own form. What it
/// holds is [`value_tree`].
#[verifier::external_type_specification]
#[verifier::external_body]
pub struct ExValue(serde_json::Value);

/// What a JSON number says.
pub enum Numeric {
    Int(int),
    /// A number that is no integer of 64 bits, by the text it is written as.
    Real(Seq<char>),
}

/// What a JSON document says.
pub enum Tree {
    Null,
    Bool(bool),
    Num(Numeric),
    Str(Seq<char>),
    Array(Seq<Tree>),
    Object(Map<Seq<char>, Tree>),
}

/// The tree of an integer.
pub open spec fn int_tree(n: int) -> Tree {
    Tree::Num(Numeric::Int(n))
}

/// A JSON document.
#[derive(Debug)]
pub enum Json {
    Null,
    Bool(bool),
    Int(i64),
    UInt(u64),
    /// A number as it was read.
    Num(serde_json::Number),
    Str(String),
    Array(Vec<Json>),
    /// Members in order; a later member replaces an earlier one of its name.
    Object(Vec<(String, Json)>),
}

/// What a `serde_json::Number` holds.
pub uninterp spec fn numeric(n: serde_json::Number) -> Numeric;

/// What a `serde_json::Value` holds.
pub uninterp spec fn value_tree(value: serde_json::Value) -> Tree;

/// The documents in `items`.
pub open spec fn items_tree(items: Seq<Json>) -> Seq<Tree>
    decreases items,
{
    if items.len() == 0 {
        seq![]
    } else {
        items_tree(items.drop_last()).push(items.last().view())
    }
}

/// The members in `fields`, by name.
pub open spec fn fields_tree(fields: Seq<(String, Json)>) -> Map<Seq<char>, Tree>
    decreases fields,
{
    if fields.len() == 0 {
        Map::empty()
    } else {
        fields_tree(fields.drop_last()).insert(fields.last().0@, fields.last().1.view())
    }
}

impl View for Json {
    type V = Tree;

    open spec fn view(&self) -> Tree
        decreases self,
    {
        match self {
            Json::Null => Tree::Null,
            Json::Bool(b) => Tree::Bool(*b),
            Json::Int(i) => int_tree(*i as int),
            Json::UInt(u) => int_tree(*u as int),
            Json::Num(n) => Tree::Num(numeric(*n)),
            Json::Str(s) => Tree::Str(s@),
            Json::Array(items) => Tree::Array(items_tree(items@)),
            Json::Object(fields) => Tree::Object(fields_tree(fields@)),
        }
    }
}

// -------------------------------------------------- the outside crate's form

/// One level of a document: its kind, with its parts still in the outside
/// crate's form.
enum Node {
    Null,
    Bool(bool),
    Int(i64),
    UInt(u64),
    Num(serde_json::Number),
    Str(String),
    Array(Vec<serde_json::Value>),
    Object(Vec<(String, serde_json::Value)>),
}

/// The trees of `items`.
pub open spec fn values_tree(items: Seq<serde_json::Value>) -> Seq<Tree> {
    items.map_values(|v: serde_json::Value| value_tree(v))
}

/// The members in `fields`, by name; a later one replaces an earlier one.
pub open spec fn members_tree(fields: Seq<(String, serde_json::Value)>) -> Map<Seq<char>, Tree>
    decreases fields.len(),
{
    if fields.len() == 0 {
        Map::empty()
    } else {
        members_tree(fields.drop_last()).insert(fields.last().0@, value_tree(fields.last().1))
    }
}

/// What one level of a document says.
spec fn node_tree(node: Node) -> Tree {
    match node {
        Node::Null => Tree::Null,
        Node::Bool(b) => Tree::Bool(b),
        Node::Int(i) => int_tree(i as int),
        Node::UInt(u) => int_tree(u as int),
        Node::Num(n) => Tree::Num(numeric(n)),
        Node::Str(s) => Tree::Str(s@),
        Node::Array(items) => Tree::Array(values_tree(items@)),
        Node::Object(fields) => Tree::Object(members_tree(fields@)),
    }
}

/// Whether no two members share a name.
spec fn distinct_names(fields: Seq<(String, serde_json::Value)>) -> bool {
    forall|i: int, j: int| 0 <= i < j < fields.len() ==> #[trigger] fields[i].0@ != #[trigger] fields[j].0@
}

/// Takes one level off a `serde_json::Value`. Claimed: the level and its
/// parts are what the value holds, and an object's members have distinct
/// names.
#[verifier::external_body]
fn open_value(value: serde_json::Value) -> (node: Node)
    ensures
        node_tree(node) == value_tree(value),
        node matches Node::Object(fields) ==> distinct_names(fields@),
{
    match value {
        serde_json::Value::Null => Node::Null,
        serde_json::Value::Bool(b) => Node::Bool(b),
        serde_json::Value::Number(n) => Node::Num(n),
        serde_json::Value::String(s) => Node::Str(s),
        serde_json::Value::Array(items) => Node::Array(items),
        serde_json::Value::Object(fields) => Node::Object(fields.into_iter().collect()),
    }
}

/// Puts one level of a `serde_json::Value` together, by its constructors and
/// by `From` on integers. Claimed: the value holds that level and its parts;
/// of two members with one name, the later.
#[verifier::external_body]
fn close_value(node: Node) -> (value: serde_json::Value)
    ensures
        value_tree(value) == node_tree(node),
{
    match node {
        Node::Null => serde_json::Value::Null,
        Node::Bool(b) => serde_json::Value::Bool(b),
        Node::Int(i) => serde_json::Value::from(i),
        Node::UInt(u) => serde_json::Value::from(u),
        Node::Num(n) => serde_json::Value::Number(n),
        Node::Str(s) => serde_json::Value::String(s),
        Node::Array(items) => serde_json::Value::Array(items),
        Node::Object(fields) => serde_json::Value::Object(fields.into_iter().collect()),
    }
}

/// `Number::clone`: the same number.
#[verifier::external_body]
pub(crate) fn copy_number(n: &serde_json::Number) -> (r: serde_json::Number)
    ensures
        r == *n,
{
    n.clone()
}

/// The number as `i64`, where it is an integer in that range.
pub open spec fn numeric_i64(n: Numeric) -> Option<int> {
    match n {
        Numeric::Int(i) => if i64::MIN <= i <= i64::MAX {
            Some(i)
        } else {
            None
        },
        Numeric::Real(_) => None,
    }
}

/// `Number::as_i64`: the number where it is an integer in the range of `i64`,
/// and nothing otherwise.
#[verifier::external_body]
fn number_i64(n: &serde_json::Number) -> (r: Option<i64>)
    ensures
        match r {
            Some(i) => numeric(*n) == Numeric::Int(i as int),
            None => numeric_i64(numeric(*n)) is None,
        },
{
    n.as_i64()
}

/// The document that `text` is read as; `None` where it is no JSON.
pub uninterp spec fn json_parse(text: Seq<char>) -> Option<Tree>;

/// `serde_json::from_str` to a `Value`. Claimed: whether it succeeds, and
/// what it gives, depends on the text alone.
#[verifier::external_body]
fn read_text(text: &str) -> (r: Option<serde_json::Value>)
    ensures
        match r {
            Some(value) => json_parse(text@) == Some(value_tree(value)),
            None => json_parse(text@) is None,
        },
{
    serde_json::from_str::<serde_json::Value>(text).ok()
}

/// The document that `bytes` are read as; `None` where they are no JSON.
pub uninterp spec fn json_parse_bytes(bytes: Seq<u8>) -> Option<Tree>;

/// `serde_json::from_slice` to a `Value`. Claimed: whether it succeeds, and
/// what it gives, depends on the bytes alone.
#[verifier::external_body]
fn read_bytes(bytes: &Vec<u8>) -> (r: Option<serde_json::Value>)
    ensures
        match r {
            Some(value) => json_parse_bytes(bytes@) == Some(value_tree(value)),
            None => json_parse_bytes(bytes@) is None,
        },
{
    serde_json::from_slice::<serde_json::Value>(bytes).ok()
}

/// A document on one line.
pub uninterp spec fn json_compact(tree: Tree) -> Seq<char>;

/// `Value::to_string`. Claimed: the text depends on what the value holds
/// alone.
#[verifier::external_body]
fn write_compact(value: &serde_json::Value) -> (text: String)
    ensures
        text@ == json_compact(value_tree(*value)),
{
    value.to_string()
}

/// A document over several lines, indented; `None` where it cannot be
/// written.
pub uninterp spec fn json_pretty(tree: Tree) -> Option<Seq<char>>;

/// `serde_json::to_string_pretty`. Claimed: whether it succeeds, and the
/// text, depends on what the value holds alone.
#[verifier::external_body]
fn write_pretty(value: &serde_json::Value) -> (r: Option<String>)
    ensures
        match r {
            Some(text) => json_pretty(value_tree(*value)) == Some(text@),
            None => json_pretty(value_tree(*value)) is None,
        },
{
    serde_json::to_string_pretty(value).ok()
}

// ---------------------------------------------------------------- conversion

/// A member of an object with distinct names is in its map.
proof fn members_hold(fields: Seq<(String, serde_json::Value)>, i: int)
    requires
        distinct_names(fields),
        0 <= i < fields.len(),
    ensures
        members_tree(fields).contains_key(fields[i].0@),
        members_tree(fields)[fields[i].0@] == value_tree(fields[i].1),
    decreases fields.len(),
{
    if i < fields.len() - 1 {
        let init = fields.drop_last();
        assert(distinct_names(init)) by {
            assert forall|a: int, b: int| 0 <= a < b < init.len() implies #[trigger] init[a].0@
                != #[trigger] init[b].0@ by {
                assert(fields[a].0@ != fields[b].0@);
            }
        }
        members_hold(init, i);
        assert(fields[i].0@ != fields[fields.len() - 1].0@);
    }
}

/// The map of an object's members is finite.
proof fn members_finite(fields: Seq<(String, serde_json::Value)>)
    ensures
        members_tree(fields).dom().finite(),
    decreases fields.len(),
{
    if fields.len() > 0 {
        members_finite(fields.drop_last());
    }
}

/// The map of an object's members is finite.
pub proof fn fields_finite(fields: Seq<(String, Json)>)
    ensures
        fields_tree(fields).dom().finite(),
    decreases fields.len(),
{
    reveal_with_fuel(fields_tree, 2);
    if fields.len() > 0 {
        fields_finite(fields.drop_last());
    }
}

/// The trees of `items`, place by place.
pub proof fn items_tree_at(items: Seq<Json>)
    ensures
        items_tree(items).len() == items.len(),
        forall|i: int| 0 <= i < items.len() ==> #[trigger] items_tree(items)[i] == items[i]@,
    decreases items.len(),
{
    reveal_with_fuel(items_tree, 2);
    if items.len() > 0 {
        items_tree_at(items.drop_last());
    }
}

/// Reads a document out of the outside crate's own form.
pub fn from_value(value: serde_json::Value) -> (json: Json)
    ensures
        json@ == value_tree(value),
    decreases value_tree(value),
{
    let ghost whole = value_tree(value);
    match open_value(value) {
        Node::Null => Json::Null,
        Node::Bool(b) => Json::Bool(b),
        Node::Int(i) => Json::Int(i),
        Node::UInt(u) => Json::UInt(u),
        Node::Num(n) => Json::Num(n),
        Node::Str(s) => Json::Str(s),
        Node::Array(items) => {
            let ghost all = items@;
            let mut out: Vec<Json> = Vec::new();
            for item in it: items.into_iter()
                invariant
                    it.seq() == all,
                    whole == value_tree(value),
                    whole == Tree::Array(values_tree(all)),
                    items_tree(out@) == values_tree(all.take(it.index())),
            {
                proof {
                    let i = it.index();
                    assert(item == all[i]);
                    assert(values_tree(all)[i] == value_tree(item));
                    assert(decreases_to!(whole => whole->Array_0[i]));
                    assert(all.take(i + 1) =~= all.take(i).push(item));
                }
                let ghost before = out@;
                out.push(from_value(item));
                proof {
                    assert(out@.drop_last() =~= before);
                    assert(values_tree(all.take(it.index() + 1)) =~= values_tree(
                        all.take(it.index()),
                    ).push(value_tree(item)));
                }
            }
            proof {
                assert(all.take(all.len() as int) =~= all);
            }
            Json::Array(out)
        },
        Node::Object(fields) => {
            let ghost all = fields@;
            let mut out: Vec<(String, Json)> = Vec::new();
            for field in it: fields.into_iter()
                invariant
                    it.seq() == all,
                    distinct_names(all),
                    whole == value_tree(value),
                    whole == Tree::Object(members_tree(all)),
                    fields_tree(out@) == members_tree(all.take(it.index())),
            {
                proof {
                    let i = it.index();
                    assert(field == all[i]);
                    members_hold(all, i);
                    members_finite(all);
                    assert(decreases_to!(whole => whole->Object_0[all[i].0@]));
                    assert(all.take(i + 1).drop_last() =~= all.take(i));
                }
                let ghost before = out@;
                let (name, inner) = field;
                out.push((name, from_value(inner)));
                proof {
                    assert(out@.drop_last() =~= before);
                }
            }
            proof {
                assert(all.take(all.len() as int) =~= all);
            }
            Json::Object(out)
        },
    }
}

impl Json {
    /// The document in the outside crate's own form.
    pub fn to_value(&self) -> (value: serde_json::Value)
        ensures
            value_tree(value) == self@,
        decreases self,
    {
        let node = match self {
            Json::Null => Node::Null,
            Json::Bool(b) => Node::Bool(*b),
            Json::Int(i) => Node::Int(*i),
            Json::UInt(u) => Node::UInt(*u),
            Json::Num(n) => Node::Num(copy_number(n)),
            Json::Str(s) => Node::Str(s.clone()),
            Json::Array(items) => {
                let mut out: Vec<serde_json::Value> = Vec::new();
                let mut i: usize = 0;
                while i < items.len()
                    invariant
                        i <= items@.len(),
                        self == Json::Array(*items),
                        values_tree(out@) == items_tree(items@.take(i as int)),
                    decreases items.len() - i,
                {
                    let ghost before = out@;
                    proof {
                        assert(decreases_to!(*self => (*self)->Array_0@[i as int]));
                    }
                    out.push(items[i].to_value());
                    proof {
                        assert(items@.take(i + 1).drop_last() =~= items@.take(i as int));
                        assert(values_tree(out@) =~= values_tree(before).push(
                            items@[i as int]@,
                        ));
                    }
                    i = i + 1;
                }
                proof {
                    assert(items@.take(items@.len() as int) =~= items@);
                }
                Node::Array(out)
            },
            Json::Object(fields) => {
                let mut out: Vec<(String, serde_json::Value)> = Vec::new();
                let mut i: usize = 0;
                while i < fields.len()
                    invariant
                        i <= fields@.len(),
                        self == Json::Object(*fields),
                        members_tree(out@) == fields_tree(fields@.take(i as int)),
                    decreases fields.len() - i,
                {
                    let ghost before = out@;
                    proof {
                        assert(decreases_to!(*self => (*self)->Object_0@[i as int].1));
                    }
                    out.push((fields[i].0.clone(), fields[i].1.to_value()));
                    proof {
                        assert(fields@.take(i + 1).drop_last() =~= fields@.take(i as int));
                        assert(out@.drop_last() =~= before);
                    }
                    i = i + 1;
                }
                proof {
                    assert(fields@.take(fields@.len() as int) =~= fields@);
                }
                Node::Object(out)
            },
        };
        close_value(node)
    }

    /// Reads a document from text.
    pub fn parse(text: &str) -> (r: Option<Json>)
        ensures
            match r {
                Some(json) => json_parse(text@) == Some(json@),
                None => json_parse(text@) is None,
            },
    {
        match read_text(text) {
            Some(value) => Some(from_value(value)),
            None => None,
        }
    }

    /// Reads a document from bytes.
    pub fn parse_bytes(bytes: &Vec<u8>) -> (r: Option<Json>)
        ensures
            match r {
                Some(json) => json_parse_bytes(bytes@) == Some(json@),
                None => json_parse_bytes(bytes@) is None,
            },
    {
        match read_bytes(bytes) {
            Some(value) => Some(from_value(value)),
            None => None,
        }
    }

    /// The document on one line.
    pub fn compact(&self) -> (text: String)
        ensures
            text@ == json_compact(self@),
    {
        write_compact(&self.to_value())
    }

    /// The document over several lines, indented.
    pub fn pretty(&self) -> (r: Option<String>)
        ensures
            match r {
                Some(text) => json_pretty(self@) == Some(text@),
                None => json_pretty(self@) is None,
            },
    {
        write_pretty(&self.to_value())
    }
}

// ------------------------------------------------------- building and reading

/// A text as a document.
pub fn json_str(s: &str) -> (json: Json)
    ensures
        json@ == Tree::Str(s@),
{
    Json::Str(s.to_owned())
}

/// The tree of a text that may be absent.
pub open spec fn opt_str_tree(s: Option<Seq<char>>) -> Tree {
    match s {
        Some(s) => Tree::Str(s),
        None => Tree::Null,
    }
}

/// Adds a member to an object that is being built.
pub fn put(fields: &mut Vec<(String, Json)>, name: &str, value: Json)
    ensures
        fields_tree(final(fields)@) == fields_tree(old(fields)@).insert(name@, value@),
{
    let ghost before = fields@;
    fields.push((name.to_owned(), value));
    proof {
        assert(fields@.drop_last() =~= before);
    }
}

/// The member `name` of a document that is an object.
pub open spec fn member(tree: Tree, name: Seq<char>) -> Option<Tree> {
    match tree {
        Tree::Object(m) => if m.contains_key(name) {
            Some(m[name])
        } else {
            None
        },
        _ => None,
    }
}

/// The text that a document is.
pub open spec fn tree_str(tree: Tree) -> Option<Seq<char>> {
    match tree {
        Tree::Str(s) => Some(s),
        _ => None,
    }
}

/// The integer in the range of `i64` that a document is.
pub open spec fn tree_i64(tree: Tree) -> Option<int> {
    match tree {
        Tree::Num(n) => numeric_i64(n),
        _ => None,
    }
}

impl Json {
    /// `Value::get`: the member `name` of an object.
    pub fn get(&self, name: &str) -> (r: Option<&Json>)
        ensures
            match r {
                Some(json) => member(self@, name@) == Some(json@),
                None => member(self@, name@) is None,
            },
    {
        match self {
            Json::Object(fields) => {
                let mut i: usize = fields.len();
                proof {
                    assert(fields@.take(fields@.len() as int) =~= fields@);
                }
                while i > 0
                    invariant
                        i <= fields@.len(),
                        self@ == Tree::Object(fields_tree(fields@)),
                        fields_tree(fields@).contains_key(name@) == fields_tree(
                            fields@.take(i as int),
                        ).contains_key(name@),
                        fields_tree(fields@).contains_key(name@) ==> fields_tree(fields@)[name@]
                            == fields_tree(fields@.take(i as int))[name@],
                    decreases i,
                {
                    proof {
                        reveal_with_fuel(fields_tree, 2);
                        assert(fields@.take(i as int).drop_last() =~= fields@.take(i - 1));
                    }
                    if text::same(fields[i - 1].0.as_str(), name) {
                        return Some(&fields[i - 1].1);
                    }
                    i = i - 1;
                }
                None
            },
            _ => None,
        }
    }

    /// `Value::as_str`.
    pub fn as_text(&self) -> (r: Option<&String>)
        ensures
            match r {
                Some(s) => tree_str(self@) == Some(s@),
                None => tree_str(self@) is None,
            },
    {
        match self {
            Json::Str(s) => Some(s),
            _ => None,
        }
    }

    /// `Value::as_i64`.
    pub fn as_i64(&self) -> (r: Option<i64>)
        ensures
            match r {
                Some(i) => tree_i64(self@) == Some(i as int),
                None => tree_i64(self@) is None,
            },
    {
        match self {
            Json::Int(i) => Some(*i),
            Json::UInt(u) => if *u <= 9223372036854775807 {
                Some(*u as i64)
            } else {
                None
            },
            Json::Num(n) => number_i64(n),
            _ => None,
        }
    }
}

} // verus!
