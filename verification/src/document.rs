//! The parsed form of one YAML document, and its mathematical model.

use vstd::prelude::*;

verus! {

/// Mathematical model of a parsed YAML document: a finite tree.
pub enum YamlTree {
    Null,
    Bool(bool),
    Integer(int),
    /// A binary64 number, given by its IEEE 754 bit pattern.
    Float(int),
    Str(Seq<char>),
    Sequence(Seq<YamlTree>),
    /// The entries of a mapping, in the order of the document.
    Mapping(Seq<YamlEntry>),
    /// A node that carries an explicit tag. The tag is written with its
    /// leading `!`.
    Tagged(Seq<char>, Box<YamlTree>),
}

/// One entry of a mapping.
pub struct YamlEntry {
    pub key: YamlTree,
    pub value: YamlTree,
}

/// One parsed YAML document.
#[derive(Debug)]
pub enum YamlValue {
    Null,
    Bool(bool),
    Integer(i128),
    /// A binary64 number, held as its IEEE 754 bit pattern.
    Float(u64),
    String(String),
    Sequence(Vec<YamlValue>),
    /// The entries of a mapping, key first, in the order of the document.
    Mapping(Vec<(YamlValue, YamlValue)>),
    /// A node that carries an explicit tag. The tag is written with its
    /// leading `!`.
    Tagged(String, Box<YamlValue>),
}

impl View for YamlValue {
    type V = YamlTree;

    /// The tree of a document. The tests on `i` only bound the recursion:
    /// an index of a sequence is always in range.
    open spec fn view(&self) -> YamlTree
        decreases self,
    {
        match self {
            YamlValue::Null => YamlTree::Null,
            YamlValue::Bool(b) => YamlTree::Bool(*b),
            YamlValue::Integer(n) => YamlTree::Integer(*n as int),
            YamlValue::Float(bits) => YamlTree::Float(*bits as int),
            YamlValue::String(s) => YamlTree::Str(s@),
            YamlValue::Sequence(items) => YamlTree::Sequence(
                Seq::new(
                    items@.len(),
                    |i: int|
                        if 0 <= i < items@.len() {
                            items@[i]@
                        } else {
                            YamlTree::Null
                        },
                ),
            ),
            YamlValue::Mapping(entries) => YamlTree::Mapping(
                Seq::new(
                    entries@.len(),
                    |i: int|
                        if 0 <= i < entries@.len() {
                            YamlEntry { key: entries@[i].0@, value: entries@[i].1@ }
                        } else {
                            YamlEntry { key: YamlTree::Null, value: YamlTree::Null }
                        },
                ),
            ),
            YamlValue::Tagged(tag, inner) => YamlTree::Tagged(tag@, Box::new((**inner)@)),
        }
    }
}

impl Clone for YamlValue {
    /// A copy that is the same tree.
    fn clone(&self) -> (copy: Self)
        ensures
            copy@ == self@,
        decreases self,
    {
        match self {
            YamlValue::Null => YamlValue::Null,
            YamlValue::Bool(b) => YamlValue::Bool(*b),
            YamlValue::Integer(n) => YamlValue::Integer(*n),
            YamlValue::Float(bits) => YamlValue::Float(*bits),
            YamlValue::String(s) => YamlValue::String(s.clone()),
            YamlValue::Sequence(items) => {
                let mut out: Vec<YamlValue> = Vec::new();
                let mut i: usize = 0;
                while i < items.len()
                    invariant
                        i <= items.len(),
                        out@.len() == i,
                        *self == YamlValue::Sequence(*items),
                        forall|k: int| 0 <= k < i ==> (#[trigger] out@[k])@ == items@[k]@,
                    decreases items.len() - i,
                {
                    assert(decreases_to!(self => self->Sequence_0[i as int]));
                    out.push(items[i].clone());
                    i += 1;
                }
                let copy = YamlValue::Sequence(out);
                assert(copy@->Sequence_0 =~= self@->Sequence_0);
                copy
            },
            YamlValue::Mapping(entries) => {
                let mut out: Vec<(YamlValue, YamlValue)> = Vec::new();
                let mut i: usize = 0;
                while i < entries.len()
                    invariant
                        i <= entries.len(),
                        out@.len() == i,
                        *self == YamlValue::Mapping(*entries),
                        forall|k: int|
                            0 <= k < i ==> {
                                &&& (#[trigger] out@[k]).0@ == entries@[k].0@
                                &&& out@[k].1@ == entries@[k].1@
                            },
                    decreases entries.len() - i,
                {
                    assert(decreases_to!(self => self->Mapping_0[i as int]));
                    let key = entries[i].0.clone();
                    let item = entries[i].1.clone();
                    out.push((key, item));
                    i += 1;
                }
                let copy = YamlValue::Mapping(out);
                assert(copy@->Mapping_0 =~= self@->Mapping_0);
                copy
            },
            YamlValue::Tagged(tag, inner) => YamlValue::Tagged(
                tag.clone(),
                Box::new((**inner).clone()),
            ),
        }
    }
}

impl PartialEq for YamlValue {
    /// Structural equality: both documents are the same tree. Two floats
    /// are equal when their bit patterns are.
    fn eq(&self, other: &Self) -> (r: bool)
        decreases self,
    {
        match (self, other) {
            (YamlValue::Null, YamlValue::Null) => true,
            (YamlValue::Bool(a), YamlValue::Bool(b)) => *a == *b,
            (YamlValue::Integer(a), YamlValue::Integer(b)) => *a == *b,
            (YamlValue::Float(a), YamlValue::Float(b)) => *a == *b,
            (YamlValue::String(a), YamlValue::String(b)) => *a == *b,
            (YamlValue::Sequence(a), YamlValue::Sequence(b)) => {
                if a.len() != b.len() {
                    assert(self@->Sequence_0.len() != other@->Sequence_0.len());
                    return false;
                }
                let mut i: usize = 0;
                while i < a.len()
                    invariant
                        i <= a.len(),
                        a.len() == b.len(),
                        *self == YamlValue::Sequence(*a),
                        *other == YamlValue::Sequence(*b),
                        forall|k: int| 0 <= k < i ==> (#[trigger] a@[k])@ == b@[k]@,
                    decreases a.len() - i,
                {
                    if !a[i].eq(&b[i]) {
                        assert(self@->Sequence_0[i as int] != other@->Sequence_0[i as int]);
                        return false;
                    }
                    i += 1;
                }
                assert(self@->Sequence_0 =~= other@->Sequence_0);
                true
            },
            (YamlValue::Mapping(a), YamlValue::Mapping(b)) => {
                if a.len() != b.len() {
                    assert(self@->Mapping_0.len() != other@->Mapping_0.len());
                    return false;
                }
                let mut i: usize = 0;
                while i < a.len()
                    invariant
                        i <= a.len(),
                        a.len() == b.len(),
                        *self == YamlValue::Mapping(*a),
                        *other == YamlValue::Mapping(*b),
                        forall|k: int|
                            0 <= k < i ==> {
                                &&& (#[trigger] a@[k]).0@ == b@[k].0@
                                &&& a@[k].1@ == b@[k].1@
                            },
                    decreases a.len() - i,
                {
                    let same_key = a[i].0.eq(&b[i].0);
                    let same_value = a[i].1.eq(&b[i].1);
                    if !same_key || !same_value {
                        assert(self@->Mapping_0[i as int] != other@->Mapping_0[i as int]);
                        return false;
                    }
                    i += 1;
                }
                assert(self@->Mapping_0 =~= other@->Mapping_0);
                true
            },
            (YamlValue::Tagged(a, x), YamlValue::Tagged(b, y)) => *a == *b && (**x).eq(&**y),
            _ => false,
        }
    }
}

impl vstd::std_specs::cmp::PartialEqSpecImpl for YamlValue {
    open spec fn obeys_eq_spec() -> bool {
        true
    }

    open spec fn eq_spec(&self, other: &Self) -> bool {
        self@ == other@
    }
}

impl Eq for YamlValue {

}

} // verus!
