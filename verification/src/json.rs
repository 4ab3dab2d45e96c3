//! Reading texts out of a JSON document.
//!
//! Parsing and navigation are done by `serde_json`; this module states what
//! the library relies on and proves the lookup of a nested text against it.

use crate::text::{fetched_view, text_of};
use vstd::prelude::*;

verus! {

/// A parsed JSON document or one of its nodes.
#[verifier::external_type_specification]
#[verifier::external_body]
pub struct ExJsonValue(serde_json::Value);

/// One step down into a JSON document.
pub enum JsonStep {
    /// Into the member of an object with the given key.
    Member(Seq<char>),
    /// Into the element of an array at the given position.
    Element(nat),
}

/// The texts of a document: maps the path of every string node, from the
/// document's root, to the string that stands there.
pub type JsonTexts = Map<Seq<JsonStep>, Seq<char>>;

/// The texts that a JSON node holds, each under its path from that node.
pub uninterp spec fn json_texts(node: serde_json::Value) -> JsonTexts;

/// What `serde_json::from_str` makes of a text: the texts of the document it
/// parses to, or the message of the error it reports.
pub uninterp spec fn parsed_json(text: Seq<char>) -> Result<JsonTexts, Seq<char>>;

/// The part of `texts` that lies below `step`, each path shortened by that step.
pub open spec fn texts_below(texts: JsonTexts, step: JsonStep) -> JsonTexts {
    Map::new(
        |path: Seq<JsonStep>| texts.contains_key(seq![step] + path),
        |path: Seq<JsonStep>| texts[seq![step] + path],
    )
}

/// The text at `path`, if a string stands there.
pub open spec fn text_at(texts: JsonTexts, path: Seq<JsonStep>) -> Option<Seq<char>> {
    if texts.contains_key(path) {
        Some(texts[path])
    } else {
        None
    }
}

/// Calls `serde_json::from_str` for a `Value`. Trusted: on success the
/// document's texts are those that `parsed_json` names for the input; on
/// failure the result is the error's message, which `parsed_json` names too.
#[verifier::external_body]
pub(crate) fn parse_json(text: &str) -> (r: Result<serde_json::Value, String>)
    ensures
        match r {
            Ok(doc) => parsed_json(text@) == Ok::<JsonTexts, Seq<char>>(json_texts(doc)),
            Err(reason) => parsed_json(text@) == Err::<JsonTexts, Seq<char>>(reason@),
        },
{
    match serde_json::from_str::<serde_json::Value>(text) {
        Ok(doc) => Ok(doc),
        Err(error) => Err(error.to_string()),
    }
}

/// Calls `Value::get` with a key. Trusted: the result is the member under
/// that key where the node is an object that has one, and its texts are the
/// node's texts below that member; without such a member the node holds no
/// text below it.
#[verifier::external_body]
pub(crate) fn json_member<'a>(node: &'a serde_json::Value, key: &str) -> (r: Option<
    &'a serde_json::Value,
>)
    ensures
        match r {
            Some(child) => json_texts(*child) == texts_below(
                json_texts(*node),
                JsonStep::Member(key@),
            ),
            None => texts_below(json_texts(*node), JsonStep::Member(key@)) == JsonTexts::empty(),
        },
{
    node.get(key)
}

/// Calls `Value::get` with a position. Trusted: the result is the element at
/// that position where the node is an array that is long enough, and its
/// texts are the node's texts below that element; without such an element the
/// node holds no text below it.
#[verifier::external_body]
pub(crate) fn json_element<'a>(node: &'a serde_json::Value, position: usize) -> (r: Option<
    &'a serde_json::Value,
>)
    ensures
        match r {
            Some(child) => json_texts(*child) == texts_below(
                json_texts(*node),
                JsonStep::Element(position as nat),
            ),
            None => texts_below(json_texts(*node), JsonStep::Element(position as nat))
                == JsonTexts::empty(),
        },
{
    node.get(position)
}

/// Calls `Value::as_str` and copies the string. Trusted: the result is the
/// node's own string where the node is a string, and nothing otherwise.
#[verifier::external_body]
pub(crate) fn json_string(node: &serde_json::Value) -> (r: Option<String>)
    ensures
        match r {
            Some(s) => text_at(json_texts(*node), Seq::<JsonStep>::empty()) == Some(s@),
            None => text_at(json_texts(*node), Seq::<JsonStep>::empty()) is None,
        },
{
    match node.as_str() {
        Some(text) => Some(text.to_owned()),
        None => None,
    }
}

/// One step down into a JSON document, as held at run time.
#[derive(Clone, Debug, PartialEq, Eq)]
pub enum PathStep {
    /// Into the member of an object with the given key.
    Member(String),
    /// Into the element of an array at the given position.
    Element(usize),
}

impl View for PathStep {
    type V = JsonStep;

    open spec fn view(&self) -> JsonStep {
        match self {
            PathStep::Member(key) => JsonStep::Member(key@),
            PathStep::Element(position) => JsonStep::Element(*position as nat),
        }
    }
}

/// The steps of a path held at run time.
pub open spec fn path_views(path: Seq<PathStep>) -> Seq<JsonStep> {
    path.map_values(|step: PathStep| step@)
}

/// What reading the text at `path` out of the JSON text `text` gives: the
/// parser's message where `text` is not JSON; else the string that stands at
/// `path`, or nothing where no string stands there.
pub open spec fn text_in_document(text: Seq<char>, path: Seq<JsonStep>) -> Result<
    Option<Seq<char>>,
    Seq<char>,
> {
    match parsed_json(text) {
        Ok(texts) => Ok(text_at(texts, path)),
        Err(reason) => Err(reason),
    }
}

/// A text below `step` is the text at the path that starts with `step`.
proof fn lemma_text_below(texts: JsonTexts, step: JsonStep, rest: Seq<JsonStep>)
    ensures
        text_at(texts_below(texts, step), rest) == text_at(texts, seq![step] + rest),
{
}

/// Walks `path` down from `doc` and gives the string at its end.
fn text_in(doc: &serde_json::Value, path: &Vec<PathStep>) -> (r: Option<String>)
    ensures
        text_of(r) == text_at(json_texts(*doc), path_views(path@)),
{
    let ghost steps = path_views(path@);
    let mut node = doc;
    let mut i: usize = 0;
    assert(steps.skip(0) =~= steps);
    while i < path.len()
        invariant
            i <= path.len(),
            steps == path_views(path@),
            text_at(json_texts(*node), steps.skip(i as int)) == text_at(json_texts(*doc), steps),
        decreases path.len() - i,
    {
        let ghost step = steps[i as int];
        proof {
            assert(steps.skip(i as int) =~= seq![step] + steps.skip(i + 1));
            lemma_text_below(json_texts(*node), step, steps.skip(i + 1));
        }
        let child = match &path[i] {
            PathStep::Member(key) => json_member(node, key.as_str()),
            PathStep::Element(position) => json_element(node, *position),
        };
        match child {
            Some(below) => {
                node = below;
            },
            None => {
                assert(!texts_below(json_texts(*node), step).contains_key(steps.skip(i + 1)));
                return None;
            },
        }
        i += 1;
    }
    assert(steps.skip(i as int) =~= Seq::<JsonStep>::empty());
    json_string(node)
}

/// Parses `text` as JSON and reads the string that stands at `path`.
/// The result is the parser's message where `text` is not JSON, nothing
/// where the document holds no string at `path`, and that string otherwise.
pub fn read_text(text: &str, path: &Vec<PathStep>) -> (r: Result<Option<String>, String>)
    ensures
        fetched_view(r) == text_in_document(text@, path_views(path@)),
{
    match parse_json(text) {
        Ok(doc) => Ok(text_in(&doc, path)),
        Err(reason) => Err(reason),
    }
}

} // verus!
