//! Instance descriptors: a class, a table of typed properties and children.

use crate::cframe::{CoordinateFrame, Vector3};
use crate::color::Color3;
use crate::text::str_eq;
use vstd::prelude::*;

verus! {

/// The value of a property.
#[derive(Clone, Copy, Debug, PartialEq, Eq)]
pub enum PropertyValue {
    /// A flag.
    Bool(bool),
    /// An item of an enumeration, by its number.
    Enum(u32),
    /// A single-precision number, in tenths.
    Number(i64),
    /// A double-precision number, in tenths.
    Double(i64),
    /// The single-precision number with the bit pattern `bits`, divided by
    /// `divisor`.
    Quotient { bits: u32, divisor: u32 },
    /// Three lengths, in tenths of a world unit.
    Vector3(Vector3),
    /// A position, in tenths of a world unit, and a rotation block.
    CFrame(CoordinateFrame),
    /// A display colour.
    Color3(Color3),
}

/// A property: its name and its value.
#[derive(Clone, Debug, PartialEq, Eq)]
pub struct Property {
    pub name: String,
    pub value: PropertyValue,
}

/// A table of properties, in the order in which they were written. Where a
/// name occurs more than once, the last entry gives its value.
#[derive(Clone, Debug, PartialEq, Eq)]
pub struct Properties {
    pub entries: Vec<Property>,
}

/// The description of an instance that has no children.
#[derive(Clone, Debug, PartialEq, Eq)]
pub struct Leaf {
    pub class: String,
    pub properties: Properties,
}

/// The description of one primitive of the output tree.
#[derive(Clone, Debug, PartialEq, Eq)]
pub struct Instance {
    pub class: String,
    pub properties: Properties,
    pub children: Vec<Leaf>,
}

impl Properties {
    /// The table that `entries` write, one after the other.
    pub open spec fn table(entries: Seq<Property>) -> Map<Seq<char>, PropertyValue>
        decreases entries.len(),
    {
        if entries.len() == 0 {
            Map::empty()
        } else {
            Self::table(entries.drop_last()).insert(entries.last().name@, entries.last().value)
        }
    }

    /// Writing `front` and then `back` gives the table of `front`, overridden
    /// by the table of `back`.
    pub proof fn lemma_table_concat(front: Seq<Property>, back: Seq<Property>)
        ensures
            Self::table(front + back) == Self::table(front).union_prefer_right(Self::table(back)),
        decreases back.len(),
    {
        if back.len() == 0 {
            assert(front + back =~= front);
            assert(Self::table(front).union_prefer_right(Self::table(back)) =~= Self::table(front));
        } else {
            assert((front + back).drop_last() =~= front + back.drop_last());
            Self::lemma_table_concat(front, back.drop_last());
            assert(Self::table(front + back) =~= Self::table(front).union_prefer_right(
                Self::table(back),
            ));
        }
    }

    /// The empty table.
    pub fn new() -> (properties: Properties)
        ensures
            properties@ == Map::<Seq<char>, PropertyValue>::empty(),
    {
        Properties { entries: Vec::new() }
    }

    /// Writes one property; an earlier value under the same name is overridden.
    pub fn insert(&mut self, name: &str, value: PropertyValue)
        ensures
            final(self)@ == old(self)@.insert(name@, value),
    {
        let ghost before = self.entries@;
        self.entries.push(Property { name: name.to_owned(), value });
        assert(self.entries@.drop_last() =~= before);
    }

    /// The value of the property `name`, where the table has one.
    pub fn get(&self, name: &str) -> (value: Option<PropertyValue>)
        ensures
            value == (if self@.contains_key(name@) {
                Some(self@[name@])
            } else {
                None
            }),
    {
        let mut i: usize = self.entries.len();
        assert(self.entries@.take(i as int) =~= self.entries@);
        while i > 0
            invariant
                i <= self.entries.len(),
                Self::table(self.entries@).contains_key(name@) == Self::table(
                    self.entries@.take(i as int),
                ).contains_key(name@),
                Self::table(self.entries@).contains_key(name@) ==> Self::table(self.entries@)[name@]
                    == Self::table(self.entries@.take(i as int))[name@],
            decreases i,
        {
            proof {
                let head = self.entries@.take(i as int);
                assert(head.drop_last() =~= self.entries@.take(i - 1));
                assert(head.last() == self.entries@[i - 1]);
            }
            i -= 1;
            if str_eq(self.entries[i].name.as_str(), name) {
                return Some(self.entries[i].value);
            }
        }
        assert(self.entries@.take(0).len() == 0);
        None
    }

    /// Writes every property of `other`, in order, after those already here.
    pub fn extend(&mut self, other: &Properties)
        ensures
            final(self)@ == old(self)@.union_prefer_right(other@),
    {
        let mut i: usize = 0;
        while i < other.entries.len()
            invariant
                i <= other.entries.len(),
                self@ == old(self)@.union_prefer_right(
                    Self::table(other.entries@.take(i as int)),
                ),
            decreases other.entries.len() - i,
        {
            let ghost before = self@;
            self.insert(other.entries[i].name.as_str(), other.entries[i].value);
            proof {
                let head = other.entries@.take(i + 1);
                assert(head.drop_last() =~= other.entries@.take(i as int));
                assert(head.last() == other.entries@[i as int]);
                assert(self@ =~= old(self)@.union_prefer_right(Self::table(head)));
            }
            i += 1;
        }
        assert(other.entries@.take(other.entries@.len() as int) =~= other.entries@);
    }
}

impl View for Properties {
    type V = Map<Seq<char>, PropertyValue>;

    open spec fn view(&self) -> Map<Seq<char>, PropertyValue> {
        Self::table(self.entries@)
    }
}

} // verus!
