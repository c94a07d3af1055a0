//! The dynamically typed value that a conversion produces, and its
//! mathematical model.

use vstd::prelude::*;

verus! {

/// Mathematical model of a dynamic value: a finite tree.
pub enum DynamicTree {
    Null,
    Bool(bool),
    Int(int),
    /// A binary64 number, given by its IEEE 754 bit pattern.
    Float(int),
    Str(Seq<char>),
    /// An ordered array.
    Array(Seq<DynamicTree>),
    /// An associative table: its entries, in the order of the document.
    Table(Seq<DynamicEntry>),
}

/// One entry of a table.
pub struct DynamicEntry {
    pub key: DynamicTree,
    pub value: DynamicTree,
}

/// A dynamically typed value.
#[derive(Debug)]
pub enum DynamicValue {
    Null,
    Bool(bool),
    Int(i128),
    /// A binary64 number, held as its IEEE 754 bit pattern.
    Float(u64),
    String(String),
    /// An ordered array.
    Array(Vec<DynamicValue>),
    /// An associative table: its entries, key first, in the order of the
    /// document.
    Table(Vec<(DynamicValue, DynamicValue)>),
}

impl View for DynamicValue {
    type V = DynamicTree;

    /// The tree of a value. The tests on `i` only bound the recursion: an
    /// index of a sequence is always in range.
    open spec fn view(&self) -> DynamicTree
        decreases self,
    {
        match self {
            DynamicValue::Null => DynamicTree::Null,
            DynamicValue::Bool(b) => DynamicTree::Bool(*b),
            DynamicValue::Int(n) => DynamicTree::Int(*n as int),
            DynamicValue::Float(bits) => DynamicTree::Float(*bits as int),
            DynamicValue::String(s) => DynamicTree::Str(s@),
            DynamicValue::Array(items) => DynamicTree::Array(
                Seq::new(
                    items@.len(),
                    |i: int|
                        if 0 <= i < items@.len() {
                            items@[i]@
                        } else {
                            DynamicTree::Null
                        },
                ),
            ),
            DynamicValue::Table(entries) => DynamicTree::Table(
                Seq::new(
                    entries@.len(),
                    |i: int|
                        if 0 <= i < entries@.len() {
                            DynamicEntry { key: entries@[i].0@, value: entries@[i].1@ }
                        } else {
                            DynamicEntry { key: DynamicTree::Null, value: DynamicTree::Null }
                        },
                ),
            ),
        }
    }
}

impl Clone for DynamicValue {
    /// A copy that is the same tree.
    fn clone(&self) -> (copy: Self)
        ensures
            copy@ == self@,
        decreases self,
    {
        match self {
            DynamicValue::Null => DynamicValue::Null,
            DynamicValue::Bool(b) => DynamicValue::Bool(*b),
            DynamicValue::Int(n) => DynamicValue::Int(*n),
            DynamicValue::Float(bits) => DynamicValue::Float(*bits),
            DynamicValue::String(s) => DynamicValue::String(s.clone()),
            DynamicValue::Array(items) => {
                let mut out: Vec<DynamicValue> = Vec::new();
                let mut i: usize = 0;
                while i < items.len()
                    invariant
                        i <= items.len(),
                        out@.len() == i,
                        *self == DynamicValue::Array(*items),
                        forall|k: int| 0 <= k < i ==> (#[trigger] out@[k])@ == items@[k]@,
                    decreases items.len() - i,
                {
                    assert(decreases_to!(self => self->Array_0[i as int]));
                    out.push(items[i].clone());
                    i += 1;
                }
                let copy = DynamicValue::Array(out);
                assert(copy@->Array_0 =~= self@->Array_0);
                copy
            },
            DynamicValue::Table(entries) => {
                let mut out: Vec<(DynamicValue, DynamicValue)> = Vec::new();
                let mut i: usize = 0;
                while i < entries.len()
                    invariant
                        i <= entries.len(),
                        out@.len() == i,
                        *self == DynamicValue::Table(*entries),
                        forall|k: int|
                            0 <= k < i ==> {
                                &&& (#[trigger] out@[k]).0@ == entries@[k].0@
                                &&& out@[k].1@ == entries@[k].1@
                            },
                    decreases entries.len() - i,
                {
                    assert(decreases_to!(self => self->Table_0[i as int]));
                    let key = entries[i].0.clone();
                    let item = entries[i].1.clone();
                    out.push((key, item));
                    i += 1;
                }
                let copy = DynamicValue::Table(out);
                assert(copy@->Table_0 =~= self@->Table_0);
                copy
            },
        }
    }
}

impl PartialEq for DynamicValue {
    /// Structural equality: both values are the same tree. Two floats are
    /// equal when their bit patterns are.
    fn eq(&self, other: &Self) -> (r: bool)
        decreases self,
    {
        match (self, other) {
            (DynamicValue::Null, DynamicValue::Null) => true,
            (DynamicValue::Bool(a), DynamicValue::Bool(b)) => *a == *b,
            (DynamicValue::Int(a), DynamicValue::Int(b)) => *a == *b,
            (DynamicValue::Float(a), DynamicValue::Float(b)) => *a == *b,
            (DynamicValue::String(a), DynamicValue::String(b)) => *a == *b,
            (DynamicValue::Array(a), DynamicValue::Array(b)) => {
                if a.len() != b.len() {
                    assert(self@->Array_0.len() != other@->Array_0.len());
                    return false;
                }
                let mut i: usize = 0;
                while i < a.len()
                    invariant
                        i <= a.len(),
                        a.len() == b.len(),
                        *self == DynamicValue::Array(*a),
                        *other == DynamicValue::Array(*b),
                        forall|k: int| 0 <= k < i ==> (#[trigger] a@[k])@ == b@[k]@,
                    decreases a.len() - i,
                {
                    if !a[i].eq(&b[i]) {
                        assert(self@->Array_0[i as int] != other@->Array_0[i as int]);
                        return false;
                    }
                    i += 1;
                }
                assert(self@->Array_0 =~= other@->Array_0);
                true
            },
            (DynamicValue::Table(a), DynamicValue::Table(b)) => {
                if a.len() != b.len() {
                    assert(self@->Table_0.len() != other@->Table_0.len());
                    return false;
                }
                let mut i: usize = 0;
                while i < a.len()
                    invariant
                        i <= a.len(),
                        a.len() == b.len(),
                        *self == DynamicValue::Table(*a),
                        *other == DynamicValue::Table(*b),
                        forall|k: int|
                            0 <= k < i ==> {
                                &&& (#[trigger] a@[k]).0@ == b@[k].0@
                                &&& a@[k].1@ == b@[k].1@
                            },
                    decreases a.len() - i,
                {
                    let same_key = a[i].0.eq(&b[i].0);
                    let same_value = a[i].1.eq(&b[i].1);
                    if !same_key || !same_value {
                        assert(self@->Table_0[i as int] != other@->Table_0[i as int]);
                        return false;
                    }
                    i += 1;
                }
                assert(self@->Table_0 =~= other@->Table_0);
                true
            },
            _ => false,
        }
    }
}

impl vstd::std_specs::cmp::PartialEqSpecImpl for DynamicValue {
    open spec fn obeys_eq_spec() -> bool {
        true
    }

    open spec fn eq_spec(&self, other: &Self) -> bool {
        self@ == other@
    }
}

impl Eq for DynamicValue {

}

} // verus!
