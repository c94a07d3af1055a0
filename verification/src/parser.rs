//! Reading YAML text with `serde_yaml`.
//!
//! The parser is not verified. This module states what is taken on trust
//! from it, and turns what it returns into a [`YamlValue`] by verified code.

use vstd::prelude::*;
use serde_yaml::Value;
use crate::document::YamlEntry;
use crate::document::YamlTree;
use crate::document::YamlValue;
use crate::error::ConversionError;

verus! {

/// `serde_yaml::Value`, the parser's own form of a document. Nothing of its
/// inside is visible to the verifier.
#[verifier::external_type_specification]
#[verifier::external_body]
pub struct ExValue(serde_yaml::Value);

/// `serde_yaml::Error`, the parser's diagnostic. Nothing of its inside is
/// visible to the verifier.
#[verifier::external_type_specification]
#[verifier::external_body]
pub struct ExError(serde_yaml::Error);

/// What `serde_yaml::from_str` makes of a text: the document that it reads,
/// or the text of its diagnostic.
pub uninterp spec fn yaml_document(text: Seq<char>) -> Result<YamlTree, Seq<char>>;

/// The tree that a `serde_yaml::Value` holds.
pub uninterp spec fn yaml_tree(value: Value) -> YamlTree;

/// What the `Display` impl of `serde_yaml::Error` writes for an error.
pub uninterp spec fn error_text(error: serde_yaml::Error) -> Seq<char>;

/// Calls `serde_yaml::from_str` for a `serde_yaml::Value`.
///
/// Taken on trust: the outcome is a function of the text alone, which
/// [`yaml_document`] names. A value that comes back holds the document, an
/// error that comes back displays as the diagnostic.
#[verifier::external_body]
fn read_text(text: &str) -> (r: Result<Value, serde_yaml::Error>)
    ensures
        match r {
            Ok(value) => yaml_document(text@) == Ok::<YamlTree, Seq<char>>(yaml_tree(value)),
            Err(error) => yaml_document(text@) == Err::<YamlTree, Seq<char>>(error_text(error)),
        },
{
    serde_yaml::from_str::<Value>(text)
}

/// Calls `to_string` on a `serde_yaml::Error`, which writes it through its
/// `Display` impl.
///
/// Taken on trust: the text is a function of the error alone, which
/// [`error_text`] names.
#[verifier::external_body]
fn error_message(error: &serde_yaml::Error) -> (message: String)
    ensures
        message@ == error_text(*error),
{
    error.to_string()
}

/// The top of a `serde_yaml::Value`: which variant it is, what a scalar
/// holds, and where the children are.
enum YamlNode<'a> {
    Null,
    Bool(bool),
    /// A number, by its three readings: as `i64`, as `u64`, and as the bit
    /// pattern of a binary64.
    Number(Option<i64>, Option<u64>, Option<u64>),
    String(&'a String),
    Sequence(&'a Vec<Value>),
    /// The entries, key first, in the order of the document.
    Mapping(Vec<(&'a Value, &'a Value)>),
    /// The tag, written with its leading `!`, and the node that carries it.
    Tagged(String, &'a Value),
}

/// The document that a number stands for. It is an integer where it reads
/// as one, signed or unsigned, and a float otherwise. A number with none
/// of the three readings holds nothing and stands for null; the parser
/// makes no such number.
pub open spec fn number_tree(
    signed: Option<i64>,
    unsigned: Option<u64>,
    bits: Option<u64>,
) -> YamlTree {
    match (signed, unsigned, bits) {
        (Some(n), _, _) => YamlTree::Integer(n as int),
        (None, Some(n), _) => YamlTree::Integer(n as int),
        (None, None, Some(b)) => YamlTree::Float(b as int),
        (None, None, None) => YamlTree::Null,
    }
}

/// The tree that a node stands for, given the trees of its children.
spec fn node_tree(node: YamlNode) -> YamlTree {
    match node {
        YamlNode::Null => YamlTree::Null,
        YamlNode::Bool(b) => YamlTree::Bool(b),
        YamlNode::Number(signed, unsigned, bits) => number_tree(signed, unsigned, bits),
        YamlNode::String(s) => YamlTree::Str(s@),
        YamlNode::Sequence(items) => YamlTree::Sequence(
            Seq::new(items@.len(), |i: int| yaml_tree(items@[i])),
        ),
        YamlNode::Mapping(entries) => YamlTree::Mapping(
            Seq::new(
                entries@.len(),
                |i: int|
                    YamlEntry {
                        key: yaml_tree(*entries@[i].0),
                        value: yaml_tree(*entries@[i].1),
                    },
            ),
        ),
        YamlNode::Tagged(tag, inner) => YamlTree::Tagged(tag@, Box::new(yaml_tree(*inner))),
    }
}

/// Tells the variants of a `serde_yaml::Value` apart and hands out what
/// each holds. A number is read by `Number::as_i64`, `Number::as_u64` and
/// `Number::as_f64`, a mapping is walked by `Mapping::iter`, a tag is
/// written by its `Display` impl.
///
/// Taken on trust: the tree of a value is made of what its top holds and
/// of the trees of its children, in their order.
#[verifier::external_body]
fn top_node<'a>(value: &'a Value) -> (node: YamlNode<'a>)
    ensures
        node_tree(node) == yaml_tree(*value),
{
    match value {
        Value::Null => YamlNode::Null,
        Value::Bool(b) => YamlNode::Bool(*b),
        Value::Number(n) => YamlNode::Number(
            n.as_i64(),
            n.as_u64(),
            n.as_f64().map(|x| x.to_bits()),
        ),
        Value::String(s) => YamlNode::String(s),
        Value::Sequence(items) => YamlNode::Sequence(items),
        Value::Mapping(entries) => YamlNode::Mapping(entries.iter().collect()),
        Value::Tagged(tagged) => YamlNode::Tagged(tagged.tag.to_string(), &tagged.value),
    }
}

/// Reads a number from its three readings: as `i64`, as `u64`, and as the
/// bit pattern of a binary64.
pub fn read_number(signed: Option<i64>, unsigned: Option<u64>, bits: Option<u64>) -> (doc: YamlValue)
    ensures
        doc@ == number_tree(signed, unsigned, bits),
{
    match (signed, unsigned, bits) {
        (Some(n), _, _) => YamlValue::Integer(n as i128),
        (None, Some(n), _) => YamlValue::Integer(n as i128),
        (None, None, Some(b)) => YamlValue::Float(b),
        (None, None, None) => YamlValue::Null,
    }
}

/// Copies what the parser returned into a document of this library.
fn to_document(value: &Value) -> (doc: YamlValue)
    ensures
        doc@ == yaml_tree(*value),
    decreases yaml_tree(*value),
{
    let ghost tree = yaml_tree(*value);
    match top_node(value) {
        YamlNode::Null => YamlValue::Null,
        YamlNode::Bool(b) => YamlValue::Bool(b),
        YamlNode::Number(signed, unsigned, bits) => read_number(signed, unsigned, bits),
        YamlNode::String(s) => YamlValue::String(s.clone()),
        YamlNode::Sequence(items) => {
            let mut out: Vec<YamlValue> = Vec::new();
            let mut i: usize = 0;
            while i < items.len()
                invariant
                    i <= items.len(),
                    out@.len() == i,
                    tree == yaml_tree(*value),
                    tree == YamlTree::Sequence(
                        Seq::new(items@.len(), |k: int| yaml_tree(items@[k])),
                    ),
                    forall|k: int| 0 <= k < i ==> (#[trigger] out@[k])@ == yaml_tree(items@[k]),
                decreases items.len() - i,
            {
                proof {
                    assert(tree->Sequence_0[i as int] == yaml_tree(items@[i as int]));
                    assert(decreases_to!(tree => tree->Sequence_0[i as int]));
                }
                out.push(to_document(&items[i]));
                i += 1;
            }
            let doc = YamlValue::Sequence(out);
            assert(doc@->Sequence_0 =~= tree->Sequence_0);
            doc
        },
        YamlNode::Mapping(entries) => {
            let mut out: Vec<(YamlValue, YamlValue)> = Vec::new();
            let mut i: usize = 0;
            while i < entries.len()
                invariant
                    i <= entries.len(),
                    out@.len() == i,
                    tree == yaml_tree(*value),
                    tree == YamlTree::Mapping(
                        Seq::new(
                            entries@.len(),
                            |k: int|
                                YamlEntry {
                                    key: yaml_tree(*entries@[k].0),
                                    value: yaml_tree(*entries@[k].1),
                                },
                        ),
                    ),
                    forall|k: int|
                        0 <= k < i ==> {
                            &&& (#[trigger] out@[k]).0@ == yaml_tree(*entries@[k].0)
                            &&& out@[k].1@ == yaml_tree(*entries@[k].1)
                        },
                decreases entries.len() - i,
            {
                proof {
                    let entry = tree->Mapping_0[i as int];
                    assert(entry.key == yaml_tree(*entries@[i as int].0));
                    assert(entry.value == yaml_tree(*entries@[i as int].1));
                    assert(decreases_to!(tree => entry.key));
                    assert(decreases_to!(tree => entry.value));
                }
                let key = to_document(entries[i].0);
                let item = to_document(entries[i].1);
                out.push((key, item));
                i += 1;
            }
            let doc = YamlValue::Mapping(out);
            assert(doc@->Mapping_0 =~= tree->Mapping_0);
            doc
        },
        YamlNode::Tagged(tag, inner) => {
            proof {
                assert(*(tree->Tagged_1) == yaml_tree(*inner));
                assert(decreases_to!(tree => *(tree->Tagged_1)));
            }
            YamlValue::Tagged(tag, Box::new(to_document(inner)))
        },
    }
}

/// Parses a text as one YAML document.
///
/// Returns the document that the parser reads from the text, and fails
/// with the parser's diagnostic where it reads none. The parser resolves
/// aliases, drops comments, and rejects a text that holds more than one
/// document, a mapping that repeats a key, and an integer that fits
/// neither `i64` nor `u64`.
pub fn parse(input: &str) -> (r: Result<YamlValue, ConversionError>)
    ensures
        match r {
            Ok(doc) => yaml_document(input@) == Ok::<YamlTree, Seq<char>>(doc@),
            Err(error) => yaml_document(input@) == Err::<YamlTree, Seq<char>>(error@),
        },
{
    match read_text(input) {
        Ok(value) => Ok(to_document(&value)),
        Err(error) => Err(ConversionError::ParseFailure(error_message(&error))),
    }
}

} // verus!
