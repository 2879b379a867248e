//! Structured values, as a generic parser hands them on: the tree that a
//! configuration is read from.

use vstd::prelude::*;

verus! {

/// A number, held in the two forms in which it is read.
#[derive(Debug, Clone, Copy, PartialEq, Eq, Hash, Structural)]
pub struct Number {
    /// The number as an IEEE 754 double, by its bits.
    pub bits: u64,
    /// The number itself, where it is a whole number from 0 to 2^64 - 1
    /// that was written without fraction or exponent.
    pub whole: Option<u64>,
}

/// A structured value.
#[derive(Debug)]
pub enum RawValue {
    Null,
    Bool(bool),
    Number(Number),
    Text(String),
    List(Vec<RawValue>),
    /// Names with their values, in the order in which they were written.
    Record(Vec<(String, RawValue)>),
}

impl Clone for RawValue {
    /// A value that is the same as this one.
    fn clone(&self) -> (r: Self)
        ensures
            self.same_as(r),
        decreases self,
    {
        match self {
            RawValue::Null => RawValue::Null,
            RawValue::Bool(b) => RawValue::Bool(*b),
            RawValue::Number(n) => RawValue::Number(*n),
            RawValue::Text(s) => RawValue::Text(s.clone()),
            RawValue::List(items) => {
                let n: usize = items.len();
                let mut out: Vec<RawValue> = Vec::new();
                let mut i: usize = 0;
                while i < n
                    invariant
                        i <= n,
                        n == items.len(),
                        out.len() == i,
                        *self == RawValue::List(*items),
                        forall|j: int| 0 <= j < i ==> (#[trigger] items@[j]).same_as(out@[j]),
                    decreases n - i,
                {
                    proof {
                        broadcast use vstd::std_specs::vec::axiom_vec_index_decreases;

                        assert(decreases_to!(*items => items[i as int]));
                        assert(decreases_to!(*self => self->List_0));
                    }
                    out.push(items[i].clone());
                    i = i + 1;
                }
                RawValue::List(out)
            },
            RawValue::Record(fields) => {
                let n: usize = fields.len();
                let mut out: Vec<(String, RawValue)> = Vec::new();
                let mut i: usize = 0;
                while i < n
                    invariant
                        i <= n,
                        n == fields.len(),
                        out.len() == i,
                        *self == RawValue::Record(*fields),
                        forall|j: int|
                            0 <= j < i ==> (#[trigger] fields@[j]).0@ == out@[j].0@
                                && fields@[j].1.same_as(out@[j].1),
                    decreases n - i,
                {
                    proof {
                        broadcast use vstd::std_specs::vec::axiom_vec_index_decreases;

                        assert(decreases_to!(*fields => fields[i as int]));
                        assert(decreases_to!(fields[i as int] => fields[i as int].1));
                        assert(decreases_to!(*self => self->Record_0));
                    }
                    out.push((fields[i].0.clone(), fields[i].1.clone()));
                    i = i + 1;
                }
                RawValue::Record(out)
            },
        }
    }
}

impl RawValue {
    /// Whether two values are the same: of one kind, with the same
    /// contents in the same order, texts and names taken by their
    /// characters.
    pub open spec fn same_as(self, other: RawValue) -> bool
        decreases self,
    {
        match self {
            RawValue::Null => other is Null,
            RawValue::Bool(b) => other == RawValue::Bool(b),
            RawValue::Number(n) => other == RawValue::Number(n),
            RawValue::Text(s) => other matches RawValue::Text(t) && s@ == t@,
            RawValue::List(items) => {
                &&& other matches RawValue::List(others)
                &&& items@.len() == others@.len()
                &&& forall|i: int|
                    0 <= i < items@.len() ==> (#[trigger] items@[i]).same_as(others@[i])
            },
            RawValue::Record(fields) => {
                &&& other matches RawValue::Record(others)
                &&& fields@.len() == others@.len()
                &&& forall|i: int|
                    0 <= i < fields@.len() ==> (#[trigger] fields@[i]).0@ == others@[i].0@
                        && fields@[i].1.same_as(others@[i].1)
            },
        }
    }

    /// Whether the value is a scalar: neither a list nor a record.
    pub open spec fn is_scalar(self) -> bool {
        !(self is List) && !(self is Record)
    }
}

/// Every value is the same as itself.
pub proof fn law_same_as_itself(v: RawValue)
    ensures
        v.same_as(v),
    decreases v,
{
    match v {
        RawValue::List(items) => {
            assert forall|i: int| 0 <= i < items@.len() implies (#[trigger] items@[i]).same_as(
                items@[i],
            ) by {
                broadcast use vstd::std_specs::vec::axiom_vec_index_decreases;

                assert(decreases_to!(items => items[i]));
                law_same_as_itself(items@[i]);
            }
        },
        RawValue::Record(fields) => {
            assert forall|i: int| 0 <= i < fields@.len() implies (#[trigger] fields@[i]).1.same_as(
                fields@[i].1,
            ) by {
                broadcast use vstd::std_specs::vec::axiom_vec_index_decreases;

                assert(decreases_to!(fields => fields[i]));
                assert(decreases_to!(fields[i] => fields[i].1));
                law_same_as_itself(fields@[i].1);
            }
        },
        _ => {},
    }
}

} // verus!
