//! JSON texts as plain nodes.
use std::collections::VecDeque;
use vstd::prelude::*;
use vstd::string::*;

use crate::text::{opt_text, same};

verus! {

/// A value of a JSON text. Each value stands before those that it holds, and the values of
/// a list stand in its order; `parent` is the place of the object or list that holds it.
#[derive(Debug)]
pub struct JsonNode {
    pub parent: Option<usize>,
    /// What the value is called, if it stands in an object.
    pub key: Option<String>,
    pub list: bool,
    pub object: bool,
    pub text: Option<String>,
    /// The number, if the value is one without a sign and without a fraction.
    pub number: Option<u64>,
}

/// What a `JsonNode` holds.
pub struct JsonNodeModel {
    pub parent: Option<usize>,
    pub key: Option<Seq<char>>,
    pub list: bool,
    pub object: bool,
    pub text: Option<Seq<char>>,
    pub number: Option<u64>,
}

impl View for JsonNode {
    type V = JsonNodeModel;

    open spec fn view(&self) -> JsonNodeModel {
        JsonNodeModel {
            parent: self.parent,
            key: opt_text(self.key),
            list: self.list,
            object: self.object,
            text: opt_text(self.text),
            number: self.number,
        }
    }
}

/// What the nodes of a list hold.
pub open spec fn json_models(nodes: Seq<JsonNode>) -> Seq<JsonNodeModel> {
    Seq::new(nodes.len(), |i: int| nodes[i]@)
}

/// `serde_json::Value`: a value with all that it holds.
#[verifier::external_type_specification]
#[verifier::external_body]
pub struct ExJsonValue(serde_json::Value);

/// The values that a `serde_json::Value` holds, itself first.
pub uninterp spec fn value_nodes(v: serde_json::Value) -> Seq<JsonNodeModel>;

/// What was found in a text, or what was told in place of it.
pub open spec fn found(r: Result<serde_json::Value, String>) -> Result<Seq<JsonNodeModel>, Seq<char>> {
    match r {
        Ok(v) => Ok(value_nodes(v)),
        Err(e) => Err(e@),
    }
}

/// The values that `serde_json::from_str` finds in a text, or why the text is no JSON
/// text.
pub uninterp spec fn json_nodes(text: Seq<char>) -> Result<Seq<JsonNodeModel>, Seq<char>>;

/// `serde_json::from_str` into a `serde_json::Value`, with an error turned into the text that
/// it shows. Which texts are JSON texts, what values one holds, and what is told of another
/// text is a function of the text.
#[verifier::external_body]
fn parse_value(text: &str) -> (r: Result<serde_json::Value, String>)
    ensures
        found(r) == json_nodes(text@),
{
    serde_json::from_str(text).map_err(|e| e.to_string())
}

/// What the methods of `serde_json::Value` tell of a value and of all that it holds: for each
/// whether it is a list or an object, and its text or number. Each value comes before those
/// that it holds. Those of a list come in its order, those of an object in the order in
/// which `serde_json` holds them, each under its name.
#[verifier::external_body]
fn list_values(root: &serde_json::Value) -> (r: Vec<JsonNode>)
    ensures
        json_models(r@) == value_nodes(*root),
{
    let mut nodes = Vec::new();
    let mut open = VecDeque::from([(None, None, root)]);
    while let Some((parent, key, v)) = open.pop_front() {
        let at = Some(nodes.len());
        open.extend(v.as_array().into_iter().flatten().map(|i| (at, None, i)));
        open.extend(v.as_object().into_iter().flatten().map(|(k, i)| (at, Some(k.clone()), i)));
        nodes.push(JsonNode {
            parent, key, list: v.is_array(), object: v.is_object(),
            text: v.as_str().map(str::to_owned), number: v.as_u64(),
        });
    }
    nodes
}

/// The values of a JSON text, or why it is none.
pub fn parse_json(text: &str) -> (r: Result<Vec<JsonNode>, String>)
    ensures
        match json_nodes(text@) {
            Ok(m) => r matches Ok(nodes) && json_models(nodes@) == m,
            Err(e) => r matches Err(x) && x@ == e,
        },
{
    match parse_value(text) {
        Ok(v) => Ok(list_values(&v)),
        Err(e) => Err(e),
    }
}

/// The first place at or after `from` of the value called `key` in the object at `p`; the
/// number of values if there is none.
pub open spec fn member(nodes: Seq<JsonNodeModel>, p: usize, key: Seq<char>, from: int) -> int
    decreases nodes.len() - from,
{
    if from >= nodes.len() {
        nodes.len() as int
    } else if nodes[from].parent == Some(p) && nodes[from].key == Some(key) {
        from
    } else {
        member(nodes, p, key, from + 1)
    }
}

/// The place of the value called `key` in the object at `p`; the number of values if there
/// is none.
pub fn find_member(nodes: &Vec<JsonNode>, p: usize, key: &str) -> (r: usize)
    ensures
        r == member(json_models(nodes@), p, key@, 0),
        r <= nodes@.len(),
{
    let ghost m = json_models(nodes@);
    let mut i: usize = 0;
    while i < nodes.len()
        invariant
            i <= nodes@.len(),
            m == json_models(nodes@),
            member(m, p, key@, 0) == member(m, p, key@, i as int),
        decreases nodes@.len() - i,
    {
        let node: &JsonNode = &nodes[i];
        assert(m[i as int] == node@);
        let inside: bool = match node.parent {
            Some(k) => k == p,
            None => false,
        };
        let called: bool = match &node.key {
            Some(k) => same(k.as_str(), key),
            None => false,
        };
        if inside && called {
            return i;
        }
        i += 1;
    }
    i
}

/// The text at a place, if there is one.
pub open spec fn text_at_place(nodes: Seq<JsonNodeModel>, i: int) -> Option<Seq<char>> {
    if 0 <= i < nodes.len() {
        nodes[i].text
    } else {
        None
    }
}

/// The number at a place, if there is one.
pub open spec fn number_at_place(nodes: Seq<JsonNodeModel>, i: int) -> Option<u64> {
    if 0 <= i < nodes.len() {
        nodes[i].number
    } else {
        None
    }
}

/// The text of the value called `key` in the object at `p`, if it is a text.
pub open spec fn member_text(nodes: Seq<JsonNodeModel>, p: usize, key: Seq<char>) -> Option<
    Seq<char>,
> {
    text_at_place(nodes, member(nodes, p, key, 0))
}

/// The number called `key` in the object at `p`, if it is one.
pub open spec fn member_number(nodes: Seq<JsonNodeModel>, p: usize, key: Seq<char>) -> Option<u64> {
    number_at_place(nodes, member(nodes, p, key, 0))
}

/// The text of the value called `key` in the object at `p`, if it is a text.
pub fn text_of_member(nodes: &Vec<JsonNode>, p: usize, key: &str) -> (r: Option<String>)
    ensures
        opt_text(r) == member_text(json_models(nodes@), p, key@),
{
    let i: usize = find_member(nodes, p, key);
    if i < nodes.len() {
        assert(json_models(nodes@)[i as int] == nodes@[i as int]@);
        match &nodes[i].text {
            Some(t) => Some(t.clone()),
            None => None,
        }
    } else {
        None
    }
}

/// The number called `key` in the object at `p`, if it is one.
pub fn number_of_member(nodes: &Vec<JsonNode>, p: usize, key: &str) -> (r: Option<u64>)
    ensures
        r == member_number(json_models(nodes@), p, key@),
{
    let i: usize = find_member(nodes, p, key);
    if i < nodes.len() {
        assert(json_models(nodes@)[i as int] == nodes@[i as int]@);
        nodes[i].number
    } else {
        None
    }
}

} // verus!
