//! The structural mapping from a YAML document to a dynamic value.

use vstd::prelude::*;
use crate::document::YamlTree;
use crate::document::YamlValue;
use crate::dynamic::DynamicEntry;
use crate::dynamic::DynamicTree;
use crate::dynamic::DynamicValue;

verus! {

/// The dynamic value of a document, node by node:
///
/// - null, booleans, integers, floats and strings stay what they are;
/// - a sequence becomes an array of the values of its items, in order;
/// - a mapping becomes a table of the values of its keys and items, in
///   order;
/// - a tagged node becomes a table of one entry, from the tag to the value
///   of the node.
///
/// Keys are mapped like any other node, whatever their kind. The tests on
/// `i` only bound the recursion: an index of a sequence is always in range.
pub open spec fn dynamic_of(doc: YamlTree) -> DynamicTree
    decreases doc,
{
    match doc {
        YamlTree::Null => DynamicTree::Null,
        YamlTree::Bool(b) => DynamicTree::Bool(b),
        YamlTree::Integer(n) => DynamicTree::Int(n),
        YamlTree::Float(bits) => DynamicTree::Float(bits),
        YamlTree::Str(s) => DynamicTree::Str(s),
        YamlTree::Sequence(items) => DynamicTree::Array(
            Seq::new(
                items.len(),
                |i: int|
                    if 0 <= i < items.len() {
                        dynamic_of(items[i])
                    } else {
                        DynamicTree::Null
                    },
            ),
        ),
        YamlTree::Mapping(entries) => DynamicTree::Table(
            Seq::new(
                entries.len(),
                |i: int|
                    if 0 <= i < entries.len() {
                        DynamicEntry {
                            key: dynamic_of(entries[i].key),
                            value: dynamic_of(entries[i].value),
                        }
                    } else {
                        DynamicEntry { key: DynamicTree::Null, value: DynamicTree::Null }
                    },
            ),
        ),
        YamlTree::Tagged(tag, inner) => DynamicTree::Table(
            seq![DynamicEntry { key: DynamicTree::Str(tag), value: dynamic_of(*inner) }],
        ),
    }
}

/// Builds the dynamic value of a document.
pub fn to_dynamic(doc: &YamlValue) -> (value: DynamicValue)
    ensures
        value@ == dynamic_of(doc@),
    decreases doc,
{
    match doc {
        YamlValue::Null => DynamicValue::Null,
        YamlValue::Bool(b) => DynamicValue::Bool(*b),
        YamlValue::Integer(n) => DynamicValue::Int(*n),
        YamlValue::Float(bits) => DynamicValue::Float(*bits),
        YamlValue::String(s) => DynamicValue::String(s.clone()),
        YamlValue::Sequence(items) => {
            let mut out: Vec<DynamicValue> = Vec::new();
            let mut i: usize = 0;
            while i < items.len()
                invariant
                    i <= items.len(),
                    out@.len() == i,
                    *doc == YamlValue::Sequence(*items),
                    forall|k: int| 0 <= k < i ==> (#[trigger] out@[k])@ == dynamic_of(items@[k]@),
                decreases items.len() - i,
            {
                assert(decreases_to!(doc => doc->Sequence_0[i as int]));
                out.push(to_dynamic(&items[i]));
                i += 1;
            }
            let value = DynamicValue::Array(out);
            assert(value@->Array_0 =~= dynamic_of(doc@)->Array_0);
            value
        },
        YamlValue::Mapping(entries) => {
            let mut out: Vec<(DynamicValue, DynamicValue)> = Vec::new();
            let mut i: usize = 0;
            while i < entries.len()
                invariant
                    i <= entries.len(),
                    out@.len() == i,
                    *doc == YamlValue::Mapping(*entries),
                    forall|k: int|
                        0 <= k < i ==> {
                            &&& (#[trigger] out@[k]).0@ == dynamic_of(entries@[k].0@)
                            &&& out@[k].1@ == dynamic_of(entries@[k].1@)
                        },
                decreases entries.len() - i,
            {
                assert(decreases_to!(doc => doc->Mapping_0[i as int]));
                let key = to_dynamic(&entries[i].0);
                let item = to_dynamic(&entries[i].1);
                out.push((key, item));
                i += 1;
            }
            let value = DynamicValue::Table(out);
            assert(value@->Table_0 =~= dynamic_of(doc@)->Table_0);
            value
        },
        YamlValue::Tagged(tag, inner) => {
            let mut out: Vec<(DynamicValue, DynamicValue)> = Vec::new();
            out.push((DynamicValue::String(tag.clone()), to_dynamic(inner)));
            let value = DynamicValue::Table(out);
            assert(out@[0].0@ == DynamicTree::Str(tag@));
            assert(value@->Table_0 =~= dynamic_of(doc@)->Table_0);
            value
        },
    }
}

} // verus!
