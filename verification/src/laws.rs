//! What holds of every conversion.

use vstd::prelude::*;
use crate::convert::converted;
use crate::document::YamlEntry;
use crate::document::YamlTree;
use crate::dynamic::DynamicEntry;
use crate::dynamic::DynamicTree;
use crate::parser::yaml_document;
use crate::structure::dynamic_of;

verus! {

/// Converting is a function of the text: two conversions of one text give
/// the same outcome, value for value and diagnostic for diagnostic.
pub proof fn lemma_convert_deterministic(
    text: Seq<char>,
    first: Result<DynamicTree, Seq<char>>,
    second: Result<DynamicTree, Seq<char>>,
)
    requires
        first == converted(text),
        second == converted(text),
    ensures
        first == second,
{
}

/// A text that the parser reads as a document converts to the dynamic
/// value of that very document.
pub proof fn lemma_convert_follows_document(text: Seq<char>, doc: YamlTree)
    requires
        yaml_document(text) == Ok::<YamlTree, Seq<char>>(doc),
    ensures
        converted(text) == Ok::<DynamicTree, Seq<char>>(dynamic_of(doc)),
{
}

/// A text that the parser rejects does not convert, and the failure
/// carries the parser's diagnostic.
pub proof fn lemma_convert_fails_with_parser(text: Seq<char>, message: Seq<char>)
    requires
        yaml_document(text) == Err::<YamlTree, Seq<char>>(message),
    ensures
        converted(text) == Err::<DynamicTree, Seq<char>>(message),
{
}

/// A sequence becomes an array of the same length, and each item of the
/// array is the value of the item at the same place in the sequence.
pub proof fn lemma_sequence_keeps_order(items: Seq<YamlTree>)
    ensures
        dynamic_of(YamlTree::Sequence(items)) is Array,
        dynamic_of(YamlTree::Sequence(items))->Array_0.len() == items.len(),
        forall|i: int|
            0 <= i < items.len() ==> #[trigger] dynamic_of(YamlTree::Sequence(items))->Array_0[i]
                == dynamic_of(items[i]),
{
}

/// A mapping becomes a table with as many entries, and each entry of the
/// table holds the values of the key and of the item at the same place in
/// the mapping.
pub proof fn lemma_mapping_keeps_entries(entries: Seq<YamlEntry>)
    ensures
        dynamic_of(YamlTree::Mapping(entries)) is Table,
        dynamic_of(YamlTree::Mapping(entries))->Table_0.len() == entries.len(),
        forall|i: int|
            0 <= i < entries.len() ==> {
                let entry = #[trigger] dynamic_of(YamlTree::Mapping(entries))->Table_0[i];
                &&& entry.key == dynamic_of(entries[i].key)
                &&& entry.value == dynamic_of(entries[i].value)
            },
{
}

/// The keys of a mapping.
pub open spec fn mapping_keys(entries: Seq<YamlEntry>) -> Set<YamlTree> {
    Set::new(|key: YamlTree| exists|i: int| 0 <= i < entries.len() && #[trigger] entries[i].key == key)
}

/// The keys of a table.
pub open spec fn table_keys(entries: Seq<DynamicEntry>) -> Set<DynamicTree> {
    Set::new(
        |key: DynamicTree| exists|i: int| 0 <= i < entries.len() && #[trigger] entries[i].key == key,
    )
}

/// The keys of the table that a mapping becomes are the values of the keys
/// of the mapping, no more and no fewer.
pub proof fn lemma_mapping_keeps_keys(entries: Seq<YamlEntry>)
    ensures
        table_keys(dynamic_of(YamlTree::Mapping(entries))->Table_0) == mapping_keys(entries).map(
            |key: YamlTree| dynamic_of(key),
        ),
{
    let table = dynamic_of(YamlTree::Mapping(entries))->Table_0;
    let image = mapping_keys(entries).map(|key: YamlTree| dynamic_of(key));
    assert forall|key: DynamicTree| table_keys(table).contains(key) implies image.contains(key) by {
        let i = choose|i: int| 0 <= i < table.len() && #[trigger] table[i].key == key;
        assert(entries[i].key == entries[i].key);
        assert(mapping_keys(entries).contains(entries[i].key));
    }
    assert forall|key: DynamicTree| image.contains(key) implies table_keys(table).contains(key) by {
        let source = choose|source: YamlTree|
            mapping_keys(entries).contains(source) && dynamic_of(source) == key;
        let i = choose|i: int| 0 <= i < entries.len() && #[trigger] entries[i].key == source;
        assert(table[i].key == key);
    }
    assert(table_keys(table) =~= image);
}

/// Whether no node of a document carries a tag.
pub open spec fn untagged(doc: YamlTree) -> bool
    decreases doc,
{
    match doc {
        YamlTree::Sequence(items) => forall|i: int|
            0 <= i < items.len() ==> untagged(#[trigger] items[i]),
        YamlTree::Mapping(entries) => forall|i: int|
            0 <= i < entries.len() ==> {
                &&& untagged((#[trigger] entries[i]).key)
                &&& untagged(entries[i].value)
            },
        YamlTree::Tagged(_, _) => false,
        _ => true,
    }
}

/// The document without tags that a dynamic value is the value of. The
/// tests on `i` only bound the recursion.
pub open spec fn document_of(value: DynamicTree) -> YamlTree
    decreases value,
{
    match value {
        DynamicTree::Null => YamlTree::Null,
        DynamicTree::Bool(b) => YamlTree::Bool(b),
        DynamicTree::Int(n) => YamlTree::Integer(n),
        DynamicTree::Float(bits) => YamlTree::Float(bits),
        DynamicTree::Str(s) => YamlTree::Str(s),
        DynamicTree::Array(items) => YamlTree::Sequence(
            Seq::new(
                items.len(),
                |i: int|
                    if 0 <= i < items.len() {
                        document_of(items[i])
                    } else {
                        YamlTree::Null
                    },
            ),
        ),
        DynamicTree::Table(entries) => YamlTree::Mapping(
            Seq::new(
                entries.len(),
                |i: int|
                    if 0 <= i < entries.len() {
                        YamlEntry {
                            key: document_of(entries[i].key),
                            value: document_of(entries[i].value),
                        }
                    } else {
                        YamlEntry { key: YamlTree::Null, value: YamlTree::Null }
                    },
            ),
        ),
    }
}

/// Every dynamic value is the value of a document without tags: the
/// mapping reaches all of the dynamic values.
pub proof fn lemma_every_value_has_a_document(value: DynamicTree)
    ensures
        untagged(document_of(value)),
        dynamic_of(document_of(value)) == value,
    decreases value,
{
    match value {
        DynamicTree::Array(items) => {
            assert forall|i: int| 0 <= i < items.len() implies untagged(
                #[trigger] document_of(value)->Sequence_0[i],
            ) && dynamic_of(document_of(value)->Sequence_0[i]) == items[i] by {
                lemma_every_value_has_a_document(items[i]);
            }
            assert(dynamic_of(document_of(value))->Array_0 =~= items);
        },
        DynamicTree::Table(entries) => {
            assert forall|i: int| 0 <= i < entries.len() implies {
                let entry = #[trigger] document_of(value)->Mapping_0[i];
                &&& untagged(entry.key)
                &&& untagged(entry.value)
                &&& dynamic_of(entry.key) == entries[i].key
                &&& dynamic_of(entry.value) == entries[i].value
            } by {
                lemma_every_value_has_a_document(entries[i].key);
                lemma_every_value_has_a_document(entries[i].value);
            }
            assert(dynamic_of(document_of(value))->Table_0 =~= entries);
        },
        _ => {},
    }
}

/// A document without tags can be read back from its dynamic value: on
/// such documents the mapping loses nothing.
pub proof fn lemma_document_is_recovered(doc: YamlTree)
    requires
        untagged(doc),
    ensures
        document_of(dynamic_of(doc)) == doc,
    decreases doc,
{
    match doc {
        YamlTree::Sequence(items) => {
            assert forall|i: int| 0 <= i < items.len() implies document_of(
                #[trigger] dynamic_of(doc)->Array_0[i],
            ) == items[i] by {
                lemma_document_is_recovered(items[i]);
            }
            assert(document_of(dynamic_of(doc))->Sequence_0 =~= items);
        },
        YamlTree::Mapping(entries) => {
            assert forall|i: int| 0 <= i < entries.len() implies {
                let entry = #[trigger] dynamic_of(doc)->Table_0[i];
                &&& document_of(entry.key) == entries[i].key
                &&& document_of(entry.value) == entries[i].value
            } by {
                assert(untagged(entries[i].key) && untagged(entries[i].value));
                lemma_document_is_recovered(entries[i].key);
                lemma_document_is_recovered(entries[i].value);
            }
            assert(document_of(dynamic_of(doc))->Mapping_0 =~= entries);
        },
        _ => {},
    }
}

/// Two documents without tags that have the same dynamic value are the
/// same document.
pub proof fn lemma_distinct_documents_stay_distinct(first: YamlTree, second: YamlTree)
    requires
        untagged(first),
        untagged(second),
        dynamic_of(first) == dynamic_of(second),
    ensures
        first == second,
{
    lemma_document_is_recovered(first);
    lemma_document_is_recovered(second);
}

} // verus!
